//! Property addresses, and the typed protocol for reading, writing and
//! translating the attributes of audio objects.
//!
//! An address is put together from three tags: an element, a scope and a
//! selector. The selector fixes the type of the property's content, and that
//! type fixes how the content is moved: whether its size is probed first,
//! how many bytes it takes, and which of the four operations it admits.
use vstd::prelude::*;
use crate::cf::{CFArray, CFDictionary, CFEntryView, CFString};
use crate::device::CADevice;
use crate::protocol::{
    reading, reading_qualified, translating, writing, AudioBufferList, AudioValueTranslation,
    Float64, Payload, PayloadKind, PayloadView, PropertyAddress, Transfer,
};

pub mod element;
pub mod scope;
pub mod selector;

verus! {

/// The code that four characters spell, the first in the highest byte.
pub open spec fn four_cc(a: char, b: char, c: char, d: char) -> u32 {
    (a as u32 * 0x100_0000 + b as u32 * 0x1_0000 + c as u32 * 0x100 + d as u32) as u32
}

/// The object that stands for the audio subsystem as a whole.
pub const SYSTEM_OBJECT: u32 = 1;

/// A tag for the element part of an address.
pub trait Element {
    /// The code of the element.
    spec fn code() -> u32;

    fn element() -> (e: u32)
        ensures
            e == Self::code(),
    ;
}

/// A tag for the scope part of an address.
pub trait Scope {
    /// The code of the scope.
    spec fn code() -> u32;

    fn scope() -> (s: u32)
        ensures
            s == Self::code(),
    ;
}

/// A tag for the selector part of an address, bound to the type of the
/// property's content.
pub trait Selector {
    type Type;

    /// The code of the selector.
    spec fn code() -> u32;

    fn selector() -> (s: u32)
        ensures
            s == Self::code(),
    ;
}

/// The address that three tags spell.
pub open spec fn address_of<El: Element, Sc: Scope, Se: Selector>() -> PropertyAddress {
    PropertyAddress { selector: Se::code(), scope: Sc::code(), element: El::code() }
}

/// The address that three tags spell.
pub fn address<El: Element, Sc: Scope, Se: Selector>(
    _element: El,
    _scope: Sc,
    _selector: Se,
) -> (a: PropertyAddress)
    ensures
        a == address_of::<El, Sc, Se>(),
{
    PropertyAddress { selector: Se::selector(), scope: Sc::scope(), element: El::element() }
}

/// A type that the content of a property can have.
pub trait PropertyType: Sized {
    /// The shape of the payload that carries a value of the type.
    spec fn kind() -> PayloadKind;

    /// The payload that carries the value.
    spec fn payload(&self) -> PayloadView;

    /// Wraps the value as a payload.
    fn into_payload(self) -> (p: Payload)
        ensures
            p@ == self.payload(),
            p@.kind() == Self::kind(),
    ;

    /// Unwraps a payload: the value that it carries, where it has the
    /// shape of the type, and nothing where it has another.
    fn from_payload(payload: Payload) -> (r: Option<Self>)
        ensures
            r is Some <==> payload@.kind() == Self::kind(),
            r is Some ==> r->0.payload() == payload@,
    ;
}

/// A property type that can be read.
pub trait GettablePropertyType: PropertyType {
    /// Begins a read of the property at `addr` of the object `obj`.
    fn get(obj: u32, addr: PropertyAddress) -> (t: Transfer)
        ensures
            t@ == reading(Self::kind(), obj, addr),
    ;
}

/// A property type that can be written.
pub trait SettablePropertyType: PropertyType {
    /// Begins a write of `value` to the property at `addr` of the object
    /// `obj`.
    fn set(obj: u32, addr: PropertyAddress, value: Self) -> (t: Transfer)
        ensures
            t@ == writing(obj, addr, value.payload()),
    ;
}

/// A property type that can be translated in place.
pub trait TranslatablePropertyType: PropertyType {
    /// Begins a translation at `addr` of the object `obj` that reads
    /// `value` and overwrites it.
    fn translate(obj: u32, addr: PropertyAddress, value: Self) -> (t: Transfer)
        ensures
            t@ == translating(obj, addr, value.payload()),
    ;
}

/// A property type that can be read with a qualifier of type `TInput`.
pub trait QualifiedGettablePropertyType<TInput>: PropertyType {
    /// The entries that the qualifier hands to the query.
    spec fn qualifier_entries(qualifier: &TInput) -> Seq<CFEntryView>;

    /// Begins a read of the property at `addr` of the object `obj` that
    /// takes `qualifier` along.
    fn get_qualified(obj: u32, addr: PropertyAddress, qualifier: TInput) -> (t: Transfer)
        ensures
            t@ == reading_qualified(Self::kind(), obj, addr, Self::qualifier_entries(&qualifier)),
    ;
}

/// Begins a read of the property that the three tags address on the object
/// `obj`.
pub fn get<El: Element, Sc: Scope, Se: Selector>(
    _element: El,
    _scope: Sc,
    _selector: Se,
    obj: u32,
) -> (t: Transfer) where Se::Type: GettablePropertyType
    ensures
        t@ == reading(<Se::Type as PropertyType>::kind(), obj, address_of::<El, Sc, Se>()),
{
    <Se::Type as GettablePropertyType>::get(
        obj,
        PropertyAddress { selector: Se::selector(), scope: Sc::scope(), element: El::element() },
    )
}

/// Begins a read, with `qualifier` as auxiliary input, of the property that
/// the three tags address on the object `obj`.
pub fn get_qualified<El: Element, Sc: Scope, Se: Selector, TInput>(
    _element: El,
    _scope: Sc,
    _selector: Se,
    qualifier: TInput,
    obj: u32,
) -> (t: Transfer) where Se::Type: QualifiedGettablePropertyType<TInput>
    ensures
        t@ == reading_qualified(
            <Se::Type as PropertyType>::kind(),
            obj,
            address_of::<El, Sc, Se>(),
            <Se::Type as QualifiedGettablePropertyType<TInput>>::qualifier_entries(&qualifier),
        ),
{
    <Se::Type as QualifiedGettablePropertyType<TInput>>::get_qualified(
        obj,
        PropertyAddress { selector: Se::selector(), scope: Sc::scope(), element: El::element() },
        qualifier,
    )
}

/// Begins a write of `value` to the property that the three tags address on
/// the object `obj`.
pub fn set<El: Element, Sc: Scope, Se: Selector>(
    _element: El,
    _scope: Sc,
    _selector: Se,
    obj: u32,
    value: Se::Type,
) -> (t: Transfer) where Se::Type: SettablePropertyType
    ensures
        t@ == writing(obj, address_of::<El, Sc, Se>(), value.payload()),
{
    <Se::Type as SettablePropertyType>::set(
        obj,
        PropertyAddress { selector: Se::selector(), scope: Sc::scope(), element: El::element() },
        value,
    )
}

/// Begins a translation of `value`, in place, at the property that the
/// three tags address on the object `obj`.
pub fn translate<El: Element, Sc: Scope, Se: Selector>(
    _element: El,
    _scope: Sc,
    _selector: Se,
    obj: u32,
    value: Se::Type,
) -> (t: Transfer) where Se::Type: TranslatablePropertyType
    ensures
        t@ == translating(obj, address_of::<El, Sc, Se>(), value.payload()),
{
    <Se::Type as TranslatablePropertyType>::translate(
        obj,
        PropertyAddress { selector: Se::selector(), scope: Sc::scope(), element: El::element() },
        value,
    )
}

impl PropertyType for Float64 {
    open spec fn kind() -> PayloadKind {
        PayloadKind::Float64
    }

    open spec fn payload(&self) -> PayloadView {
        PayloadView::Float64(*self)
    }

    fn into_payload(self) -> (p: Payload) {
        Payload::Float64(self)
    }

    fn from_payload(payload: Payload) -> (r: Option<Self>) {
        match payload {
            Payload::Float64(v) => Some(v),
            _ => None,
        }
    }
}

impl PropertyType for Vec<CADevice> {
    open spec fn kind() -> PayloadKind {
        PayloadKind::DeviceList
    }

    open spec fn payload(&self) -> PayloadView {
        PayloadView::DeviceList(self@)
    }

    fn into_payload(self) -> (p: Payload) {
        Payload::DeviceList(self)
    }

    fn from_payload(payload: Payload) -> (r: Option<Self>) {
        match payload {
            Payload::DeviceList(v) => Some(v),
            _ => None,
        }
    }
}

impl PropertyType for CADevice {
    open spec fn kind() -> PayloadKind {
        PayloadKind::Device
    }

    open spec fn payload(&self) -> PayloadView {
        PayloadView::Device(*self)
    }

    fn into_payload(self) -> (p: Payload) {
        Payload::Device(self)
    }

    fn from_payload(payload: Payload) -> (r: Option<Self>) {
        match payload {
            Payload::Device(v) => Some(v),
            _ => None,
        }
    }
}

impl PropertyType for CFArray {
    open spec fn kind() -> PayloadKind {
        PayloadKind::Array
    }

    open spec fn payload(&self) -> PayloadView {
        PayloadView::Array(self@)
    }

    fn into_payload(self) -> (p: Payload) {
        Payload::Array(self)
    }

    fn from_payload(payload: Payload) -> (r: Option<Self>) {
        match payload {
            Payload::Array(v) => Some(v),
            _ => None,
        }
    }
}

impl PropertyType for CFString {
    open spec fn kind() -> PayloadKind {
        PayloadKind::String
    }

    open spec fn payload(&self) -> PayloadView {
        PayloadView::String(self@)
    }

    fn into_payload(self) -> (p: Payload) {
        Payload::String(self)
    }

    fn from_payload(payload: Payload) -> (r: Option<Self>) {
        match payload {
            Payload::String(v) => Some(v),
            _ => None,
        }
    }
}

impl PropertyType for AudioBufferList {
    open spec fn kind() -> PayloadKind {
        PayloadKind::BufferList
    }

    open spec fn payload(&self) -> PayloadView {
        PayloadView::BufferList(self@)
    }

    fn into_payload(self) -> (p: Payload) {
        Payload::BufferList(self)
    }

    fn from_payload(payload: Payload) -> (r: Option<Self>) {
        match payload {
            Payload::BufferList(v) => Some(v),
            _ => None,
        }
    }
}

impl PropertyType for AudioValueTranslation {
    open spec fn kind() -> PayloadKind {
        PayloadKind::Translation
    }

    open spec fn payload(&self) -> PayloadView {
        PayloadView::Translation(self@)
    }

    fn into_payload(self) -> (p: Payload) {
        Payload::Translation(self)
    }

    fn from_payload(payload: Payload) -> (r: Option<Self>) {
        match payload {
            Payload::Translation(v) => Some(v),
            _ => None,
        }
    }
}

impl GettablePropertyType for Float64 {
    fn get(obj: u32, addr: PropertyAddress) -> (t: Transfer) {
        Transfer::reading(PayloadKind::Float64, obj, addr)
    }
}

impl GettablePropertyType for Vec<CADevice> {
    fn get(obj: u32, addr: PropertyAddress) -> (t: Transfer) {
        Transfer::reading(PayloadKind::DeviceList, obj, addr)
    }
}

impl GettablePropertyType for CADevice {
    fn get(obj: u32, addr: PropertyAddress) -> (t: Transfer) {
        Transfer::reading(PayloadKind::Device, obj, addr)
    }
}

impl GettablePropertyType for CFArray {
    fn get(obj: u32, addr: PropertyAddress) -> (t: Transfer) {
        Transfer::reading(PayloadKind::Array, obj, addr)
    }
}

impl GettablePropertyType for CFString {
    fn get(obj: u32, addr: PropertyAddress) -> (t: Transfer) {
        Transfer::reading(PayloadKind::String, obj, addr)
    }
}

impl GettablePropertyType for AudioBufferList {
    fn get(obj: u32, addr: PropertyAddress) -> (t: Transfer) {
        Transfer::reading(PayloadKind::BufferList, obj, addr)
    }
}

impl SettablePropertyType for Float64 {
    fn set(obj: u32, addr: PropertyAddress, value: Self) -> (t: Transfer) {
        Transfer::writing(obj, addr, value.into_payload())
    }
}

impl SettablePropertyType for CFArray {
    fn set(obj: u32, addr: PropertyAddress, value: Self) -> (t: Transfer) {
        Transfer::writing(obj, addr, value.into_payload())
    }
}

impl TranslatablePropertyType for CADevice {
    fn translate(obj: u32, addr: PropertyAddress, value: Self) -> (t: Transfer) {
        Transfer::translating(obj, addr, value.into_payload())
    }
}

impl TranslatablePropertyType for AudioValueTranslation {
    fn translate(obj: u32, addr: PropertyAddress, value: Self) -> (t: Transfer) {
        Transfer::translating(obj, addr, value.into_payload())
    }
}

impl QualifiedGettablePropertyType<CFDictionary> for CADevice {
    open spec fn qualifier_entries(qualifier: &CFDictionary) -> Seq<CFEntryView> {
        qualifier@
    }

    fn get_qualified(obj: u32, addr: PropertyAddress, qualifier: CFDictionary) -> (t: Transfer) {
        Transfer::reading_qualified(PayloadKind::Device, obj, addr, qualifier)
    }
}

} // verus!
