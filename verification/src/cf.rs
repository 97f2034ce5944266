//! The hardware-status error, and plain-value models of the managed
//! string, number, array and dictionary objects that travel to and from the
//! audio subsystem.
//!
//! The models hold what the protocol logic reads and writes: text, one
//! integer, an ordered list of strings, and a list of keyed entries. Turning
//! them into objects of the operating system is left to the caller that
//! talks to it.
use vstd::prelude::*;

verus! {

/// The status code with which the audio subsystem reports success.
pub const NO_ERR: i32 = 0;

/// A failure reported by the audio subsystem: the non-zero status code of
/// the primitive operation that failed.
#[derive(Debug, Clone, Copy, PartialEq, Eq, Structural)]
pub struct CFError(pub i32);

/// The digit that stands for `d` in hexadecimal notation, in lower case.
pub open spec fn hex_digit(d: int) -> char {
    if d == 0 {
        '0'
    } else if d == 1 {
        '1'
    } else if d == 2 {
        '2'
    } else if d == 3 {
        '3'
    } else if d == 4 {
        '4'
    } else if d == 5 {
        '5'
    } else if d == 6 {
        '6'
    } else if d == 7 {
        '7'
    } else if d == 8 {
        '8'
    } else if d == 9 {
        '9'
    } else if d == 10 {
        'a'
    } else if d == 11 {
        'b'
    } else if d == 12 {
        'c'
    } else if d == 13 {
        'd'
    } else if d == 14 {
        'e'
    } else {
        'f'
    }
}

/// The hexadecimal notation of `n`, in lower case and without leading
/// zeros.
pub open spec fn hex(n: nat) -> Seq<char>
    decreases n,
{
    if n < 16 {
        seq![hex_digit(n as int)]
    } else {
        hex(n / 16).push(hex_digit((n % 16) as int))
    }
}

/// The 32 bits of `s` read as a number without sign.
pub open spec fn unsigned(s: i32) -> nat {
    if s >= 0 {
        s as nat
    } else {
        (s + 0x1_0000_0000) as nat
    }
}

fn hex_digit_text(d: u32) -> (r: &'static str)
    requires
        d < 16,
    ensures
        r@ == seq![hex_digit(d as int)],
{
    proof {
        reveal_strlit("0");
        reveal_strlit("1");
        reveal_strlit("2");
        reveal_strlit("3");
        reveal_strlit("4");
        reveal_strlit("5");
        reveal_strlit("6");
        reveal_strlit("7");
        reveal_strlit("8");
        reveal_strlit("9");
        reveal_strlit("a");
        reveal_strlit("b");
        reveal_strlit("c");
        reveal_strlit("d");
        reveal_strlit("e");
        reveal_strlit("f");
    }
    let r = if d == 0 {
        "0"
    } else if d == 1 {
        "1"
    } else if d == 2 {
        "2"
    } else if d == 3 {
        "3"
    } else if d == 4 {
        "4"
    } else if d == 5 {
        "5"
    } else if d == 6 {
        "6"
    } else if d == 7 {
        "7"
    } else if d == 8 {
        "8"
    } else if d == 9 {
        "9"
    } else if d == 10 {
        "a"
    } else if d == 11 {
        "b"
    } else if d == 12 {
        "c"
    } else if d == 13 {
        "d"
    } else if d == 14 {
        "e"
    } else {
        "f"
    };
    assert(r@ =~= seq![hex_digit(d as int)]);
    r
}

fn hex_text(n: u32) -> (r: String)
    ensures
        r@ == hex(n as nat),
    decreases n,
{
    if n < 16 {
        hex_digit_text(n).to_owned()
    } else {
        let mut r = hex_text(n / 16);
        let d = hex_digit_text(n % 16);
        r.append(d);
        assert(r@ =~= hex((n / 16) as nat).push(hex_digit((n % 16) as int)));
        r
    }
}

impl CFError {
    /// The status code that the failing operation returned.
    pub fn status(&self) -> (s: i32)
        ensures
            s == self.0,
    {
        self.0
    }

    /// The error in words: `OSStatus(`, the 32 bits of the status code in
    /// hexadecimal notation, and `)`.
    pub fn to_string(&self) -> (r: String)
        ensures
            r@ == "OSStatus("@ + hex(unsigned(self.0)) + ")"@,
    {
        let bits: u32 = if self.0 >= 0 {
            self.0 as u32
        } else {
            (self.0 as i64 + 0x1_0000_0000) as u32
        };
        let mut r = "OSStatus(".to_owned();
        let digits = hex_text(bits);
        r.append(digits.as_str());
        r.append(")");
        r
    }
}

/// Turns a status code into a result: success for `NO_ERR`, and for every
/// other code an error that carries it.
pub fn check_os_status(s: i32) -> (r: Result<(), CFError>)
    ensures
        r.is_ok() <==> s == NO_ERR,
        r.is_err() ==> r.unwrap_err() == CFError(s),
{
    if s == NO_ERR {
        Ok(())
    } else {
        Err(CFError(s))
    }
}

/// A managed string, modelled by its text.
#[derive(Debug, PartialEq, Eq)]
pub struct CFString {
    text: String,
}

impl View for CFString {
    type V = Seq<char>;

    closed spec fn view(&self) -> Seq<char> {
        self.text@
    }
}

impl Clone for CFString {
    fn clone(&self) -> (r: Self)
        ensures
            r@ == self@,
    {
        CFString { text: self.text.clone() }
    }
}

impl CFString {
    /// A string with the text of `s`.
    pub fn new(s: &str) -> (r: Self)
        ensures
            r@ == s@,
    {
        CFString { text: s.to_owned() }
    }

    /// The text of the string.
    pub fn to_string(&self) -> (r: String)
        ensures
            r@ == self@,
    {
        self.text.clone()
    }

    /// The text of the string, borrowed.
    pub fn as_str(&self) -> (r: &str)
        ensures
            r@ == self@,
    {
        self.text.as_str()
    }

    /// Whether two strings hold the same text.
    pub fn same_text(&self, other: &CFString) -> (r: bool)
        ensures
            r == (self@ == other@),
    {
        self.text == other.text
    }
}

/// A managed number, modelled by the 32-bit integer it was made from.
#[derive(Debug, Clone, Copy, PartialEq, Eq, Structural)]
pub struct CFNumber {
    value: i32,
}

impl View for CFNumber {
    type V = int;

    closed spec fn view(&self) -> int {
        self.value as int
    }
}

impl CFNumber {
    /// A number with the given value.
    pub fn new(value: i32) -> (r: Self)
        ensures
            r@ == value,
    {
        CFNumber { value }
    }

    /// The value of the number.
    pub fn value(&self) -> (v: i32)
        ensures
            v == self@,
    {
        self.value
    }
}

/// What a dictionary entry can hold.
#[derive(Debug, PartialEq, Eq)]
pub enum CFValue {
    String(CFString),
    Number(CFNumber),
}

/// The mathematical value of a [`CFValue`].
pub enum CFValueView {
    String(Seq<char>),
    Number(int),
}

impl View for CFValue {
    type V = CFValueView;

    open spec fn view(&self) -> CFValueView {
        match self {
            CFValue::String(s) => CFValueView::String(s@),
            CFValue::Number(n) => CFValueView::Number(n@),
        }
    }
}

impl Clone for CFValue {
    fn clone(&self) -> (r: Self)
        ensures
            r@ == self@,
    {
        match self {
            CFValue::String(s) => CFValue::String(s.clone()),
            CFValue::Number(n) => CFValue::Number(*n),
        }
    }
}

/// The views of a list of strings, in order.
pub open spec fn texts(items: Seq<CFString>) -> Seq<Seq<char>> {
    items.map_values(|s: CFString| s@)
}

/// An immutable managed array of strings, in order.
#[derive(Debug, PartialEq, Eq)]
pub struct CFArray {
    items: Vec<CFString>,
}

impl View for CFArray {
    type V = Seq<Seq<char>>;

    closed spec fn view(&self) -> Seq<Seq<char>> {
        texts(self.items@)
    }
}

impl CFArray {
    /// The number of strings in the array.
    pub fn len(&self) -> (n: usize)
        ensures
            n == self@.len(),
    {
        self.items.len()
    }

    /// The string at position `i`.
    pub fn get(&self, i: usize) -> (s: &CFString)
        requires
            i < self@.len(),
        ensures
            s@ == self@[i as int],
    {
        &self.items[i]
    }
}

/// A managed array of strings that can still grow.
#[derive(Debug, PartialEq, Eq)]
pub struct CFMutableArray {
    items: Vec<CFString>,
}

impl View for CFMutableArray {
    type V = Seq<Seq<char>>;

    closed spec fn view(&self) -> Seq<Seq<char>> {
        texts(self.items@)
    }
}

impl CFMutableArray {
    /// An empty array.
    pub fn new() -> (r: Self)
        ensures
            r@ == Seq::<Seq<char>>::empty(),
    {
        let r = CFMutableArray { items: Vec::new() };
        assert(r@ =~= Seq::<Seq<char>>::empty());
        r
    }

    /// Appends `value` at the end.
    pub fn push(&mut self, value: CFString)
        ensures
            final(self)@ == old(self)@.push(value@),
    {
        self.items.push(value);
        assert(self@ =~= old(self)@.push(value@));
    }

    /// An immutable array with the same strings in the same order.
    pub fn clone_immutable(&self) -> (r: CFArray)
        ensures
            r@ == self@,
    {
        let mut items: Vec<CFString> = Vec::new();
        let mut i: usize = 0;
        while i < self.items.len()
            invariant
                i <= self.items.len(),
                items@.len() == i,
                forall|j: int| 0 <= j < i ==> (#[trigger] items@[j])@ == self.items@[j]@,
            decreases self.items.len() - i,
        {
            items.push(self.items[i].clone());
            i += 1;
        }
        let r = CFArray { items };
        assert(r@ =~= self@);
        r
    }
}

/// One entry of a dictionary, as mathematics sees it: the key's text and the
/// value.
pub type CFEntryView = (Seq<char>, CFValueView);

/// The views of a list of dictionary entries, in order.
pub open spec fn entry_views(entries: Seq<(CFString, CFValue)>) -> Seq<CFEntryView> {
    entries.map_values(|e: (CFString, CFValue)| (e.0@, e.1@))
}

/// Whether some entry of `entries` has the key `key`.
pub open spec fn has_key(entries: Seq<CFEntryView>, key: Seq<char>) -> bool {
    exists|i: int| 0 <= i < entries.len() && (#[trigger] entries[i]).0 == key
}

/// Whether no two entries of `entries` share a key.
pub open spec fn distinct_keys(entries: Seq<CFEntryView>) -> bool {
    forall|i: int, j: int|
        0 <= i < j < entries.len() ==> (#[trigger] entries[i]).0 != (#[trigger] entries[j]).0
}

/// What adding `key` with `value` does to a dictionary's entries: a key
/// that is already present keeps its entry and nothing changes; a new key is
/// entered at the end.
pub open spec fn add_entry(entries: Seq<CFEntryView>, key: Seq<char>, value: CFValueView) -> Seq<
    CFEntryView,
> {
    if has_key(entries, key) {
        entries
    } else {
        entries.push((key, value))
    }
}

/// An immutable managed dictionary: keyed entries in the order in which
/// they were added, no key twice.
#[derive(Debug, PartialEq, Eq)]
pub struct CFDictionary {
    entries: Vec<(CFString, CFValue)>,
}

impl View for CFDictionary {
    type V = Seq<CFEntryView>;

    closed spec fn view(&self) -> Seq<CFEntryView> {
        entry_views(self.entries@)
    }
}

impl CFDictionary {
    /// The number of entries.
    pub fn len(&self) -> (n: usize)
        ensures
            n == self@.len(),
    {
        self.entries.len()
    }

    /// The key of the entry at position `i`.
    pub fn key(&self, i: usize) -> (k: &CFString)
        requires
            i < self@.len(),
        ensures
            k@ == self@[i as int].0,
    {
        &self.entries[i].0
    }

    /// The value of the entry at position `i`.
    pub fn value(&self, i: usize) -> (v: &CFValue)
        requires
            i < self@.len(),
        ensures
            v@ == self@[i as int].1,
    {
        &self.entries[i].1
    }
}

/// A managed dictionary that can still grow.
#[derive(Debug, PartialEq, Eq)]
pub struct CFMutableDictionary {
    entries: Vec<(CFString, CFValue)>,
}

impl View for CFMutableDictionary {
    type V = Seq<CFEntryView>;

    closed spec fn view(&self) -> Seq<CFEntryView> {
        entry_views(self.entries@)
    }
}

impl CFMutableDictionary {
    /// An empty dictionary.
    pub fn new() -> (r: Self)
        ensures
            r@ == Seq::<CFEntryView>::empty(),
    {
        let r = CFMutableDictionary { entries: Vec::new() };
        assert(r@ =~= Seq::<CFEntryView>::empty());
        r
    }

    /// Whether the dictionary has an entry under `key`.
    pub fn contains_key(&self, key: &CFString) -> (r: bool)
        ensures
            r == has_key(self@, key@),
    {
        let mut i: usize = 0;
        while i < self.entries.len()
            invariant
                i <= self.entries.len(),
                forall|j: int| 0 <= j < i ==> (#[trigger] self@[j]).0 != key@,
            decreases self.entries.len() - i,
        {
            if self.entries[i].0.same_text(key) {
                assert(self@[i as int].0 == key@);
                return true;
            }
            i += 1;
        }
        false
    }

    /// Adds `value` under `key` unless the key is already present, in which
    /// case the dictionary stays as it is.
    pub fn insert(&mut self, key: CFString, value: CFValue)
        ensures
            final(self)@ == add_entry(old(self)@, key@, value@),
            distinct_keys(old(self)@) ==> distinct_keys(final(self)@),
    {
        if !self.contains_key(&key) {
            self.entries.push((key, value));
            assert(self@ =~= old(self)@.push((key@, value@)));
        }
    }

    /// An immutable dictionary with the same entries in the same order.
    pub fn clone_immutable(&self) -> (r: CFDictionary)
        ensures
            r@ == self@,
    {
        let mut entries: Vec<(CFString, CFValue)> = Vec::new();
        let mut i: usize = 0;
        while i < self.entries.len()
            invariant
                i <= self.entries.len(),
                entries@.len() == i,
                forall|j: int|
                    0 <= j < i ==> (#[trigger] entries@[j]).0@ == self.entries@[j].0@
                        && entries@[j].1@ == self.entries@[j].1@,
            decreases self.entries.len() - i,
        {
            let key = self.entries[i].0.clone();
            let value = self.entries[i].1.clone();
            entries.push((key, value));
            i += 1;
        }
        let r = CFDictionary { entries };
        assert(r@ =~= self@);
        r
    }
}

} // verus!
