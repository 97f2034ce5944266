//! Laws about whole runs of the machines against the reference model of
//! the audio subsystem.
use vstd::prelude::*;
use crate::aggregate_device::{
    aggregate_description, creation, device_listing, sub_device_list, AggregateDeviceView,
    RefreshView, SetupView,
};
use crate::device::CADevice;
use crate::hardware::{described, respond, DeviceModel, Hardware};
use crate::properties::address_of;
use crate::properties::element::Master;
use crate::properties::scope::{Global, Wildcard};
use crate::properties::selector::{
    AggregateDevicePropertyFullSubDeviceList, DevicePropertyNominalSampleRate,
};
use crate::protocol::{
    answers, handles_written, reading, writing, Float64, PayloadKind, PayloadView, RegionView,
    ReplyView, Step, TransferView, DEVICE_ID_SIZE,
};
use crate::session::{CASessionView, StartView, StopView, SwapView};

verus! {

/// The run of a refresh against the model: each pending request is
/// answered by the model and the reply handed to the machine, until the
/// machine ends or `fuel` replies have been handed over.
pub open spec fn run_refresh(m: RefreshView, hw: Hardware, fuel: nat) -> (
    Hardware,
    Step<RefreshView, ()>,
)
    decreases fuel,
{
    if fuel == 0 {
        (hw, Step::Continue(m))
    } else {
        let (next, reply) = respond(hw, m.pending());
        match m.advance(reply) {
            Step::Continue(m2) => run_refresh(m2, next, (fuel - 1) as nat),
            step => (next, step),
        }
    }
}

/// The model after the sub-device list of the device `device` has been
/// rewired to join `input` and `output`.
pub open spec fn rewired(hw: Hardware, device: u32, input: CADevice, output: CADevice) -> Hardware {
    hw.with_device(
        hw.place(device),
        DeviceModel {
            sub_devices: sub_device_list(
                input,
                output,
                hw.device(input.0).uid,
                hw.device(output.0).uid,
            ),
            ..hw.device(device)
        },
    )
}

/// The sub-device list has one entry, the input's string, where input and
/// output are one device, and else two: the input's string, then the
/// output's.
pub proof fn lemma_sub_device_list(
    input: CADevice,
    output: CADevice,
    input_uid: Seq<char>,
    output_uid: Seq<char>,
)
    ensures
        sub_device_list(input, output, input_uid, output_uid)[0] == input_uid,
        input == output ==> sub_device_list(input, output, input_uid, output_uid).len() == 1,
        input != output ==> sub_device_list(input, output, input_uid, output_uid).len() == 2
            && sub_device_list(input, output, input_uid, output_uid)[1] == output_uid,
{
}

/// A refresh that runs against a model that has the aggregate device, the
/// input and the output ends well after no more than three replies, and
/// leaves the model rewired: the sub-device list of the aggregate device is
/// the list that joins input and output, and nothing else has changed.
pub proof fn lemma_refresh_rewires(hw: Hardware, device: u32, input: CADevice, output: CADevice)
    requires
        hw.wf(),
        hw.has(device),
        hw.has(input.0),
        hw.has(output.0),
    ensures
        run_refresh(RefreshView::begin(device, input, output), hw, 3) == (
            rewired(hw, device, input, output),
            Step::<RefreshView, ()>::Done(()),
        ),
{
    reveal_with_fuel(run_refresh, 4);
}

/// No partial output. A read of a device list ends, on a successful
/// query, with as many handles as the query reports to have written, and no
/// more than the memory has room for; each of them is the handle that the
/// reply holds in that place. On a failed query it ends with the status and
/// with no handle at all.
pub proof fn lemma_listing_is_whole(t: TransferView, capacity: usize, reply: ReplyView)
    requires
        t.pending is PropertyData,
        t.pending->region == (RegionView::Blank { kind: PayloadKind::DeviceList, capacity }),
        answers(reply, t.pending),
    ensures
        reply.status != 0 ==> t.advance(reply) is Failed,
        reply.status == 0 ==> ({
            let listed = t.advance(reply)->Done_0.devices();
            &&& t.advance(reply) is Done
            &&& t.advance(reply)->Done_0 is DeviceList
            &&& listed.len() == handles_written(reply.size, capacity)
            &&& forall|i: int| 0 <= i < listed.len() ==> listed[i] == reply.data.devices()[i]
        }),
{
}

/// A listing of the devices that is probed against the model as it is at
/// one time and read against the model as it is at another ends with the
/// handles of the devices that are there at the read, as far as the probe
/// has made room for them: each handle listed names a device that the model
/// then has, also where devices have gone in between.
pub proof fn lemma_listing_names_devices(probed: Hardware, read: Hardware)
    requires
        probed.wf(),
        read.wf(),
    ensures
        ({
            let room = probed.devices.len() as usize;
            let sized = device_listing().advance(respond(probed, device_listing().pending).1);
            let step = sized->Continue_0.advance(respond(read, sized->Continue_0.pending).1);
            &&& sized is Continue
            &&& step == Step::<TransferView, PayloadView>::Done(
                PayloadView::DeviceList(read.handles(room)),
            )
            &&& read.handles(room).len() <= read.devices.len()
            &&& forall|i: int|
                0 <= i < read.handles(room).len() ==> read.has(
                    (#[trigger] read.handles(room)[i]).0,
                )
        }),
{
    let n = probed.devices.len();
    let room = n as usize;
    assert(((n * DEVICE_ID_SIZE) as u32) / DEVICE_ID_SIZE == n) by (nonlinear_arith)
        requires
            n * DEVICE_ID_SIZE <= u32::MAX,
            DEVICE_ID_SIZE == 4,
    ;
    let k = read.fitting(room);
    assert(k * DEVICE_ID_SIZE <= u32::MAX) by (nonlinear_arith)
        requires
            k <= read.devices.len(),
            read.devices.len() * DEVICE_ID_SIZE <= u32::MAX,
    ;
    assert(((k * DEVICE_ID_SIZE) as u32) / DEVICE_ID_SIZE == k) by (nonlinear_arith)
        requires
            k * DEVICE_ID_SIZE <= u32::MAX,
            DEVICE_ID_SIZE == 4,
    ;
    let ids = read.handles(room);
    assert(ids.take(k as int) =~= ids);
    assert forall|i: int| 0 <= i < ids.len() implies read.has((#[trigger] ids[i]).0) by {
        assert(read.is_at(ids[i].0, i));
    }
}

/// The run of an attachment against the model.
pub open spec fn run_setup(m: SetupView, hw: Hardware, fuel: nat) -> (
    Hardware,
    Step<SetupView, AggregateDeviceView>,
)
    decreases fuel,
{
    if fuel == 0 {
        (hw, Step::Continue(m))
    } else {
        let (next, reply) = respond(hw, m.pending());
        match m.advance(reply) {
            Step::Continue(m2) => run_setup(m2, next, (fuel - 1) as nat),
            step => (next, step),
        }
    }
}

/// The place of the first device from `from` on that `uid` identifies, and
/// the number of devices where there is none.
pub open spec fn first_with_uid(hw: Hardware, uid: Seq<char>, from: int) -> int
    decreases hw.devices.len() - from,
{
    if from < 0 || from >= hw.devices.len() {
        hw.devices.len() as int
    } else if hw.devices[from].uid == uid {
        from
    } else {
        first_with_uid(hw, uid, from + 1)
    }
}

/// The model after the plug-in has made the aggregate device that `uid`
/// identifies.
pub open spec fn created(hw: Hardware, uid: Seq<char>) -> Hardware {
    Hardware {
        devices: hw.devices.push(
            DeviceModel {
                id: hw.next_device,
                uid,
                sub_devices: Seq::empty(),
                nominal_rate: Float64 { bits: 0 },
            },
        ),
        next_device: (hw.next_device + 1) as u32,
        ..hw
    }
}

/// Whether the model has room for one more device.
pub open spec fn has_room(hw: Hardware) -> bool {
    hw.next_device < u32::MAX && (hw.devices.len() + 1) * DEVICE_ID_SIZE <= u32::MAX
}

/// The virtual device that an attachment ends up with: the first device
/// that `uid` identifies, and a new one where there is none.
pub open spec fn attached_device(hw: Hardware, uid: Seq<char>) -> CADevice {
    if first_with_uid(hw, uid, 0) < hw.devices.len() {
        CADevice(hw.devices[first_with_uid(hw, uid, 0)].id)
    } else {
        CADevice(hw.next_device)
    }
}

/// The model after an attachment: with a new device where none was
/// identified by `uid`, and with the virtual device rewired.
pub open spec fn attached(hw: Hardware, uid: Seq<char>, input: CADevice, output: CADevice)
    -> Hardware {
    rewired(
        if first_with_uid(hw, uid, 0) < hw.devices.len() {
            hw
        } else {
            created(hw, uid)
        },
        attached_device(hw, uid).0,
        input,
        output,
    )
}

/// The description of the aggregate device to create holds `uid` under the
/// key for the identifying string.
pub proof fn lemma_described_uid(uid: Seq<char>)
    ensures
        described(aggregate_description(uid), "uid"@) == uid,
{
    reveal_strlit("name");
    reveal_strlit("uid");
    reveal_strlit("private");
    let d = aggregate_description(uid);
    assert(d[0].0 != "uid"@) by {
        assert(d[0].0.len() == 4);
        assert("uid"@.len() == 3);
    }
    assert(d.skip(1)[0] == d[1]);
    reveal_with_fuel(described, 3);
}

/// The first device that `uid` identifies is a device of the model that
/// `uid` identifies, and none before it is.
pub proof fn lemma_first_with_uid(hw: Hardware, uid: Seq<char>, from: int)
    requires
        0 <= from <= hw.devices.len(),
    ensures
        from <= first_with_uid(hw, uid, from) <= hw.devices.len(),
        first_with_uid(hw, uid, from) < hw.devices.len() ==> hw.devices[first_with_uid(
            hw,
            uid,
            from,
        )].uid == uid,
        forall|i: int|
            from <= i < first_with_uid(hw, uid, from) ==> (#[trigger] hw.devices[i]).uid != uid,
    decreases hw.devices.len() - from,
{
    if from < hw.devices.len() && hw.devices[from].uid != uid {
        lemma_first_with_uid(hw, uid, from + 1);
    }
}

/// In a model that is in order, the place of the device that an identifier
/// names is the one place where that identifier is found.
pub proof fn lemma_place(hw: Hardware, i: int)
    requires
        hw.wf(),
        0 <= i < hw.devices.len(),
    ensures
        hw.has(hw.devices[i].id),
        hw.place(hw.devices[i].id) == i,
        hw.device(hw.devices[i].id) == hw.devices[i],
{
    assert(hw.is_at(hw.devices[i].id, i));
}

/// Making a device leaves the model in order, keeps every device it had
/// where it was, and puts the new one behind them.
pub proof fn lemma_created(hw: Hardware, uid: Seq<char>)
    requires
        hw.wf(),
        has_room(hw),
    ensures
        created(hw, uid).wf(),
        created(hw, uid).has(hw.next_device),
        created(hw, uid).place(hw.next_device) == hw.devices.len(),
        forall|id: u32| hw.has(id) ==> created(hw, uid).has(id) && created(hw, uid).device(id)
                == hw.device(id),
{
    let c = created(hw, uid);
    let n = hw.devices.len() as int;
    assert(c.devices.len() == n + 1);
    assert forall|i: int| 0 <= i < n implies c.devices[i] == hw.devices[i] by {}
    assert(c.devices[n].id == hw.next_device);
    assert forall|i: int| 0 <= i < c.devices.len() implies 0 < (#[trigger] c.devices[i]).id
        < c.next_device by {
        if i < n {
            assert(c.devices[i] == hw.devices[i]);
        }
    }
    assert forall|i: int, j: int| 0 <= i < j < c.devices.len() implies (
    #[trigger] c.devices[i]).id != (#[trigger] c.devices[j]).id by {
        assert(c.devices[i] == hw.devices[i]);
        if j < n {
            assert(c.devices[j] == hw.devices[j]);
        }
    }
    assert((n + 1) * DEVICE_ID_SIZE <= u32::MAX);
    assert(c.wf());
    lemma_place(c, hw.devices.len() as int);
    assert forall|id: u32| hw.has(id) implies c.has(id) && c.device(id) == hw.device(id) by {
        let i = hw.place(id);
        assert(hw.is_at(id, i));
        lemma_place(hw, i);
        lemma_place(c, i);
    }
}

/// An attachment that has its virtual device at hand refreshes its
/// sub-device list and ends well, with the model rewired, after no more than
/// three replies.
pub proof fn lemma_attach(
    hw: Hardware,
    plugin: u32,
    device: CADevice,
    input: CADevice,
    output: CADevice,
    fuel: nat,
)
    requires
        hw.wf(),
        hw.has(device.0),
        hw.has(input.0),
        hw.has(output.0),
        fuel >= 3,
    ensures
        run_setup(SetupView::attach(plugin, device, input, output), hw, fuel) == (
            rewired(hw, device.0, input, output),
            Step::<SetupView, AggregateDeviceView>::Done(
                AggregateDeviceView { plugin_id: plugin, device, input, output },
            ),
        ),
{
    reveal_with_fuel(run_setup, 4);
}

/// An attachment that still has the devices from `index` on to examine
/// goes on, without any change to the model, as one that has taken the
/// first device from there on that `uid` identifies, or, where there is
/// none, as one that asks for the device to be made. That takes one reply
/// for each device examined.
pub proof fn lemma_scan(
    hw: Hardware,
    uid: Seq<char>,
    plugin: u32,
    input: CADevice,
    output: CADevice,
    index: int,
    fuel: nat,
)
    requires
        hw.wf(),
        0 <= index <= hw.devices.len(),
        fuel >= hw.devices.len() - index,
    ensures
        ({
            let ids = hw.handles(hw.devices.len() as usize);
            let found = first_with_uid(hw, uid, index);
            run_setup(SetupView::scan(uid, plugin, input, output, ids, index), hw, fuel)
                == if found < hw.devices.len() {
                run_setup(
                    SetupView::attach(plugin, ids[found], input, output),
                    hw,
                    (fuel - (found - index) - 1) as nat,
                )
            } else {
                run_setup(
                    SetupView::Creating {
                        plugin,
                        input,
                        output,
                        transfer: creation(plugin, uid),
                    },
                    hw,
                    (fuel - (found - index)) as nat,
                )
            }
        }),
    decreases hw.devices.len() - index,
{
    let ids = hw.handles(hw.devices.len() as usize);
    lemma_first_with_uid(hw, uid, index);
    if index < hw.devices.len() {
        lemma_place(hw, index);
        assert(ids[index] == CADevice(hw.devices[index].id));
        reveal_with_fuel(run_setup, 2);
        if hw.devices[index].uid != uid {
            lemma_scan(hw, uid, plugin, input, output, index + 1, (fuel - 1) as nat);
        }
    }
}

/// An attachment that runs against a model that is in order, that has the
/// input and the output, and that has a device that `uid` identifies or
/// else room for one more, ends well:
/// with the first device that `uid` identifies where there is one, and else
/// with a device that the plug-in has made; and with the model rewired. No
/// device is made where one was found.
pub proof fn lemma_setup(
    hw: Hardware,
    uid: Seq<char>,
    input: CADevice,
    output: CADevice,
    fuel: nat,
)
    requires
        hw.wf(),
        hw.has(input.0),
        hw.has(output.0),
        first_with_uid(hw, uid, 0) < hw.devices.len() || has_room(hw),
        fuel >= hw.devices.len() + 7,
    ensures
        run_setup(SetupView::begin(uid, input, output), hw, fuel) == (
            attached(hw, uid, input, output),
            Step::<SetupView, AggregateDeviceView>::Done(
                AggregateDeviceView {
                    plugin_id: hw.plugin,
                    device: attached_device(hw, uid),
                    input,
                    output,
                },
            ),
        ),
{
    let n = hw.devices.len();
    let ids = hw.handles(n as usize);
    let found = first_with_uid(hw, uid, 0);
    lemma_first_with_uid(hw, uid, 0);
    assert(n * DEVICE_ID_SIZE <= u32::MAX);
    assert(((n * DEVICE_ID_SIZE) as u32) / DEVICE_ID_SIZE == n) by (nonlinear_arith)
        requires
            n * DEVICE_ID_SIZE <= u32::MAX,
            DEVICE_ID_SIZE == 4,
    ;
    assert(ids.take(n as int) =~= ids);
    reveal_with_fuel(run_setup, 4);
    assert(run_setup(SetupView::begin(uid, input, output), hw, fuel) == run_setup(
        SetupView::scan(uid, hw.plugin, input, output, ids, 0),
        hw,
        (fuel - 3) as nat,
    ));
    lemma_scan(hw, uid, hw.plugin, input, output, 0, (fuel - 3) as nat);
    if found < n {
        lemma_place(hw, found);
        lemma_attach(hw, hw.plugin, ids[found], input, output, (fuel - 3 - found - 1) as nat);
    } else {
        lemma_described_uid(uid);
        lemma_created(hw, uid);
        let c = created(hw, uid);
        assert(run_setup(
            SetupView::Creating {
                plugin: hw.plugin,
                input,
                output,
                transfer: creation(hw.plugin, uid),
            },
            hw,
            (fuel - 3 - n) as nat,
        ) == run_setup(
            SetupView::attach(hw.plugin, CADevice(hw.next_device), input, output),
            c,
            (fuel - 3 - n - 1) as nat,
        ));
        lemma_attach(
            c,
            hw.plugin,
            CADevice(hw.next_device),
            input,
            output,
            (fuel - 3 - n - 1) as nat,
        );
    }
}

/// Rewiring a device leaves the model in order, and changes neither which
/// devices there are, nor where they are, nor what identifies them.
pub proof fn lemma_rewired(hw: Hardware, device: u32, input: CADevice, output: CADevice)
    requires
        hw.wf(),
        hw.has(device),
    ensures
        rewired(hw, device, input, output).wf(),
        rewired(hw, device, input, output).devices.len() == hw.devices.len(),
        forall|i: int|
            0 <= i < hw.devices.len() ==> (#[trigger] rewired(
                hw,
                device,
                input,
                output,
            ).devices[i]).id == hw.devices[i].id && rewired(
                hw,
                device,
                input,
                output,
            ).devices[i].uid == hw.devices[i].uid,
        forall|id: u32| hw.has(id) <==> rewired(hw, device, input, output).has(id),
        forall|uid: Seq<char>, from: int|
            first_with_uid(rewired(hw, device, input, output), uid, from) == first_with_uid(
                hw,
                uid,
                from,
            ),
{
    let r = rewired(hw, device, input, output);
    let p = hw.place(device);
    assert(hw.is_at(device, p));
    assert forall|i: int| 0 <= i < hw.devices.len() implies (#[trigger] r.devices[i]).id
        == hw.devices[i].id && r.devices[i].uid == hw.devices[i].uid by {}
    assert forall|id: u32| hw.has(id) <==> r.has(id) by {
        if hw.has(id) {
            let i = hw.place(id);
            assert(hw.is_at(id, i));
            assert(r.is_at(id, i));
        }
        if r.has(id) {
            let i = r.place(id);
            assert(r.is_at(id, i));
            assert(hw.is_at(id, i));
        }
    }
    assert forall|uid: Seq<char>, from: int|
        first_with_uid(r, uid, from) == first_with_uid(hw, uid, from) by {
        lemma_same_uids(r, hw, uid, from);
    }
}

/// Which device is the first that `uid` identifies depends on nothing but
/// the identifying strings of the devices, in order.
pub proof fn lemma_same_uids(a: Hardware, b: Hardware, uid: Seq<char>, from: int)
    requires
        a.devices.len() == b.devices.len(),
        forall|i: int| 0 <= i < a.devices.len() ==> (#[trigger] a.devices[i]).uid == b.devices[i].uid,
    ensures
        first_with_uid(a, uid, from) == first_with_uid(b, uid, from),
    decreases a.devices.len() - from,
{
    if 0 <= from < a.devices.len() {
        assert(a.devices[from].uid == b.devices[from].uid);
        lemma_same_uids(a, b, uid, from + 1);
    }
}

/// The run of a session start against the model.
pub open spec fn run_start(m: StartView, hw: Hardware, fuel: nat) -> (
    Hardware,
    Step<StartView, CASessionView>,
)
    decreases fuel,
{
    if fuel == 0 {
        (hw, Step::Continue(m))
    } else {
        let (next, reply) = respond(hw, m.pending());
        match m.advance(reply) {
            Step::Continue(m2) => run_start(m2, next, (fuel - 1) as nat),
            step => (next, step),
        }
    }
}

/// The run of a session teardown against the model.
pub open spec fn run_stop(m: StopView, hw: Hardware, fuel: nat) -> (Hardware, Step<StopView, ()>)
    decreases fuel,
{
    if fuel == 0 {
        (hw, Step::Continue(m))
    } else {
        let (next, reply) = respond(hw, m.pending());
        match m.advance(reply) {
            Step::Continue(m2) => run_stop(m2, next, (fuel - 1) as nat),
            step => (next, step),
        }
    }
}

/// The model after a callback has been registered on `device` and its
/// hardware clock started.
pub open spec fn started(hw: Hardware, device: u32) -> Hardware {
    Hardware {
        registrations: hw.registrations.insert((device, hw.next_registration)),
        running: hw.running.insert((device, hw.next_registration)),
        next_registration: (hw.next_registration + 1) as u64,
        ..hw
    }
}

/// The model after the session that holds the registration `proc_id` on
/// `device` has been torn down: the clock stopped, the registration
/// released, the device destroyed.
pub open spec fn stopped(hw: Hardware, device: u32, proc_id: u64) -> Hardware {
    Hardware {
        registrations: hw.registrations.remove((device, proc_id)),
        running: hw.running.remove((device, proc_id)),
        devices: hw.devices.remove(hw.place(device)),
        ..hw
    }
}

/// A session start whose attachment ends well against the model goes on to
/// register the callback and to start the clock, and ends well with a
/// session that holds the registration.
pub proof fn lemma_start_after_setup(
    setup: SetupView,
    hw: Hardware,
    fuel: nat,
    after: Hardware,
    aggregate: AggregateDeviceView,
)
    requires
        run_setup(setup, hw, fuel) == (
            after,
            Step::<SetupView, AggregateDeviceView>::Done(aggregate),
        ),
        after.has(aggregate.device.0),
    ensures
        run_start(StartView::Building { setup }, hw, fuel + 2) == (
            started(after, aggregate.device.0),
            Step::<StartView, CASessionView>::Done(
                CASessionView { device: aggregate, callback: Some(after.next_registration) },
            ),
        ),
    decreases fuel,
{
    reveal_with_fuel(run_setup, 1);
    reveal_with_fuel(run_start, 3);
    if fuel > 0 {
        let (next, reply) = respond(hw, setup.pending());
        match setup.advance(reply) {
            Step::Continue(s2) => {
                lemma_start_after_setup(s2, next, (fuel - 1) as nat, after, aggregate);
            },
            _ => {
                assert(started(after, aggregate.device.0).registrations.contains(
                    (aggregate.device.0, after.next_registration),
                ));
            },
        }
    }
}

/// A session start that runs against a model that is in order, that has
/// the input and the output, and that has a device that `uid` identifies
/// or else room for one more, ends well: the virtual device is the first
/// device that `uid` identifies, or a new one where there is none; it is
/// rewired to join input and output; the callback is registered on it and
/// its clock runs.
pub proof fn lemma_start(
    hw: Hardware,
    uid: Seq<char>,
    input: CADevice,
    output: CADevice,
    fuel: nat,
)
    requires
        hw.wf(),
        hw.has(input.0),
        hw.has(output.0),
        first_with_uid(hw, uid, 0) < hw.devices.len() || has_room(hw),
        fuel >= hw.devices.len() + 9,
    ensures
        run_start(StartView::begin(uid, input, output), hw, fuel) == (
            started(attached(hw, uid, input, output), attached_device(hw, uid).0),
            Step::<StartView, CASessionView>::Done(
                CASessionView {
                    device: AggregateDeviceView {
                        plugin_id: hw.plugin,
                        device: attached_device(hw, uid),
                        input,
                        output,
                    },
                    callback: Some(hw.next_registration),
                },
            ),
        ),
        attached(hw, uid, input, output).has(attached_device(hw, uid).0),
        attached(hw, uid, input, output).wf(),
{
    lemma_setup(hw, uid, input, output, (fuel - 2) as nat);
    lemma_first_with_uid(hw, uid, 0);
    let found = first_with_uid(hw, uid, 0);
    if found < hw.devices.len() {
        lemma_place(hw, found);
        lemma_rewired(hw, attached_device(hw, uid).0, input, output);
    } else {
        lemma_created(hw, uid);
        lemma_rewired(created(hw, uid), attached_device(hw, uid).0, input, output);
    }
    lemma_start_after_setup(
        SetupView::begin(uid, input, output),
        hw,
        (fuel - 2) as nat,
        attached(hw, uid, input, output),
        AggregateDeviceView {
            plugin_id: hw.plugin,
            device: attached_device(hw, uid),
            input,
            output,
        },
    );
}

/// The teardown of a started session that runs against a model which has
/// the session's registration and its virtual device, and whose plug-in is
/// the one that the session names, ends well after three replies: the clock
/// is stopped, the registration released and the virtual device destroyed,
/// in that order, and nothing else has changed.
pub proof fn lemma_stop(hw: Hardware, session: CASessionView, fuel: nat)
    requires
        hw.wf(),
        session.callback is Some,
        hw.registrations.contains((session.device.device.0, session.callback->0)),
        hw.has(session.device.device.0),
        session.device.plugin_id == hw.plugin,
        fuel >= 3,
    ensures
        run_stop(StopView::begin(session), hw, fuel) == (
            stopped(hw, session.device.device.0, session.callback->0),
            Step::<StopView, ()>::Done(()),
        ),
{
    reveal_with_fuel(run_stop, 4);
    let d = session.device.device.0;
    let p = session.callback->0;
    let (hw1, _r1) = respond(hw, StopView::begin(session).pending());
    let (hw2, _r2) = respond(hw1, StopView::Unregistering { session }.pending());
    assert(hw1.registrations.contains((d, p)));
    assert(hw2.running =~= hw.running.remove((d, p)));
    assert(hw2.has(d)) by {
        assert(hw.is_at(d, hw.place(d)));
        assert(hw2.is_at(d, hw.place(d)));
    }
    assert(hw2.place(d) == hw.place(d)) by {
        assert(hw2.devices == hw.devices);
    }
}

/// Starting a session leaves the model in order.
pub proof fn lemma_started(hw: Hardware, device: u32)
    requires
        hw.wf(),
        hw.next_registration < u64::MAX,
    ensures
        started(hw, device).wf(),
        started(hw, device).devices == hw.devices,
        forall|id: u32| hw.has(id) <==> started(hw, device).has(id),
        forall|uid: Seq<char>, from: int|
            first_with_uid(started(hw, device), uid, from) == first_with_uid(hw, uid, from),
{
    let t = started(hw, device);
    assert forall|id: u32| hw.has(id) <==> t.has(id) by {
        if hw.has(id) {
            assert(hw.is_at(id, hw.place(id)));
            assert(t.is_at(id, hw.place(id)));
        }
        if t.has(id) {
            assert(t.is_at(id, t.place(id)));
            assert(hw.is_at(id, t.place(id)));
        }
    }
    assert forall|uid: Seq<char>, from: int|
        first_with_uid(t, uid, from) == first_with_uid(hw, uid, from) by {
        lemma_same_uids(t, hw, uid, from);
    }
}

/// Where no device of the model is identified by `uid`, the device that
/// the plug-in makes is the first that is.
pub proof fn lemma_created_is_first(hw: Hardware, uid: Seq<char>, from: int)
    requires
        0 <= from <= hw.devices.len(),
        first_with_uid(hw, uid, from) == hw.devices.len(),
    ensures
        first_with_uid(created(hw, uid), uid, from) == hw.devices.len(),
    decreases hw.devices.len() - from,
{
    let c = created(hw, uid);
    if from < hw.devices.len() {
        assert(c.devices[from] == hw.devices[from]);
        lemma_created_is_first(hw, uid, from + 1);
    } else {
        assert(c.devices[from].uid == uid);
    }
}

/// Idempotence. A second session start with the same identifying string,
/// run against the model as the first start has left it, ends with the
/// virtual device of the first: it was found, and no second one was made.
pub proof fn lemma_start_twice(
    hw: Hardware,
    uid: Seq<char>,
    input: CADevice,
    output: CADevice,
    input2: CADevice,
    output2: CADevice,
    fuel: nat,
)
    requires
        hw.wf(),
        hw.has(input.0),
        hw.has(output.0),
        hw.has(input2.0),
        hw.has(output2.0),
        first_with_uid(hw, uid, 0) < hw.devices.len() || has_room(hw),
        hw.next_registration < u64::MAX,
        fuel >= hw.devices.len() + 10,
    ensures
        ({
            let first = run_start(StartView::begin(uid, input, output), hw, fuel);
            let second = run_start(StartView::begin(uid, input2, output2), first.0, fuel);
            &&& first.1 is Done
            &&& second.1 is Done
            &&& second.1->Done_0.device.device == first.1->Done_0.device.device
            &&& second.0.devices.len() == first.0.devices.len()
        }),
{
    let device = attached_device(hw, uid);
    let found = first_with_uid(hw, uid, 0);
    lemma_start(hw, uid, input, output, fuel);
    lemma_first_with_uid(hw, uid, 0);
    let base = if found < hw.devices.len() {
        hw
    } else {
        created(hw, uid)
    };
    if found < hw.devices.len() {
        lemma_place(hw, found);
    } else {
        lemma_created(hw, uid);
        lemma_created_is_first(hw, uid, 0);
    }
    lemma_rewired(base, device.0, input, output);
    let mid = attached(hw, uid, input, output);
    lemma_started(mid, device.0);
    let hw1 = started(mid, device.0);
    assert(first_with_uid(hw1, uid, 0) == found);
    assert(hw1.devices[found].id == device.0);
    lemma_start(hw1, uid, input2, output2, fuel);
    lemma_rewired(hw1, device.0, input2, output2);
}

/// Lifecycle symmetry. A session start followed by the teardown of the
/// session leaves the model with the registrations and the running clocks
/// that it had before the start, and without the virtual device: the
/// devices are those that the model had, less the first that `uid`
/// identified.
pub proof fn lemma_start_then_stop(
    hw: Hardware,
    uid: Seq<char>,
    input: CADevice,
    output: CADevice,
    fuel: nat,
)
    requires
        hw.wf(),
        hw.has(input.0),
        hw.has(output.0),
        first_with_uid(hw, uid, 0) < hw.devices.len() || has_room(hw),
        hw.next_registration < u64::MAX,
        fuel >= hw.devices.len() + 9,
    ensures
        ({
            let first = run_start(StartView::begin(uid, input, output), hw, fuel);
            let last = run_stop(StopView::begin(first.1->Done_0), first.0, fuel);
            let found = first_with_uid(hw, uid, 0);
            &&& first.1 is Done
            &&& last.1 == Step::<StopView, ()>::Done(())
            &&& last.0.registrations == hw.registrations
            &&& last.0.running == hw.running
            &&& last.0.devices == if found < hw.devices.len() {
                hw.devices.remove(found)
            } else {
                hw.devices
            }
            &&& last.0.wf()
        }),
{
    let device = attached_device(hw, uid);
    let found = first_with_uid(hw, uid, 0);
    lemma_start(hw, uid, input, output, fuel);
    lemma_first_with_uid(hw, uid, 0);
    let base = if found < hw.devices.len() {
        hw
    } else {
        created(hw, uid)
    };
    if found < hw.devices.len() {
        lemma_place(hw, found);
    } else {
        lemma_created(hw, uid);
    }
    lemma_rewired(base, device.0, input, output);
    let mid = attached(hw, uid, input, output);
    lemma_started(mid, device.0);
    let hw1 = started(mid, device.0);
    let session = CASessionView {
        device: AggregateDeviceView { plugin_id: hw.plugin, device, input, output },
        callback: Some(hw.next_registration),
    };
    assert(hw1.registrations.contains((device.0, hw.next_registration)));
    lemma_stop(hw1, session, fuel);
    let hw2 = stopped(hw1, device.0, hw.next_registration);
    assert(!hw.registrations.contains((device.0, hw.next_registration)));
    assert(!hw.running.contains((device.0, hw.next_registration)));
    assert(hw2.registrations =~= hw.registrations);
    assert(hw2.running =~= hw.running);
    assert(hw1.devices[found].id == device.0);
    lemma_place(hw1, found);
    if found < hw.devices.len() {
        assert(hw2.devices =~= hw.devices.remove(found));
    } else {
        assert(hw2.devices =~= hw.devices);
    }
    lemma_stopped(hw1, device.0, hw.next_registration);
}

/// Whether no device of the model but the first that `uid` identifies is
/// identified by `uid`.
pub open spec fn at_most_one(hw: Hardware, uid: Seq<char>) -> bool {
    forall|i: int|
        0 <= i < hw.devices.len() && i != first_with_uid(hw, uid, 0) ==> (
        #[trigger] hw.devices[i]).uid != uid
}

/// No device left. Where the model has at most one device that `uid`
/// identifies, a session start followed by the teardown of the session
/// leaves it with none: the teardown ends well, no device of the model is
/// identified by `uid`, and a listing of all devices then ends with handles
/// of which none names a device that `uid` identifies.
pub proof fn lemma_no_virtual_device_left(
    hw: Hardware,
    uid: Seq<char>,
    input: CADevice,
    output: CADevice,
    fuel: nat,
)
    requires
        hw.wf(),
        hw.has(input.0),
        hw.has(output.0),
        first_with_uid(hw, uid, 0) < hw.devices.len() || has_room(hw),
        hw.next_registration < u64::MAX,
        fuel >= hw.devices.len() + 9,
        at_most_one(hw, uid),
    ensures
        ({
            let first = run_start(StartView::begin(uid, input, output), hw, fuel);
            let last = run_stop(StopView::begin(first.1->Done_0), first.0, fuel);
            let sized = device_listing().advance(respond(last.0, device_listing().pending).1);
            let listed = sized->Continue_0.advance(respond(last.0, sized->Continue_0.pending).1);
            &&& first.1 is Done
            &&& last.1 == Step::<StopView, ()>::Done(())
            &&& forall|i: int|
                0 <= i < last.0.devices.len() ==> (#[trigger] last.0.devices[i]).uid != uid
            &&& listed is Done
            &&& listed->Done_0.devices().len() == last.0.devices.len()
            &&& forall|i: int|
                0 <= i < listed->Done_0.devices().len() ==> last.0.device(
                    (#[trigger] listed->Done_0.devices()[i]).0,
                ).uid != uid
        }),
{
    lemma_start_then_stop(hw, uid, input, output, fuel);
    lemma_first_with_uid(hw, uid, 0);
    let found = first_with_uid(hw, uid, 0);
    let first = run_start(StartView::begin(uid, input, output), hw, fuel);
    let last = run_stop(StopView::begin(first.1->Done_0), first.0, fuel);
    assert forall|i: int| 0 <= i < last.0.devices.len() implies (#[trigger] last.0.devices[i]).uid
        != uid by {
        if found < hw.devices.len() && i >= found {
            assert(last.0.devices[i] == hw.devices[i + 1]);
        } else {
            assert(last.0.devices[i] == hw.devices[i]);
        }
    }
    lemma_listing_names_devices(last.0, last.0);
    let ids = last.0.handles(last.0.devices.len() as usize);
    assert forall|i: int| 0 <= i < ids.len() implies last.0.device((#[trigger] ids[i]).0).uid
        != uid by {
        lemma_place(last.0, i);
    }
}

/// End to end. Where the model has at most one device that `uid`
/// identifies, and neither the input nor the output is identified by it, a
/// session start leaves the virtual device with the sub-device list that
/// joins input and output, and the teardown that follows leaves the model
/// with no device that `uid` identifies, with the input and the output as
/// they were, and with the registrations and the running clocks that it had.
pub proof fn lemma_start_to_end(
    hw: Hardware,
    uid: Seq<char>,
    input: CADevice,
    output: CADevice,
    fuel: nat,
)
    requires
        hw.wf(),
        hw.has(input.0),
        hw.has(output.0),
        first_with_uid(hw, uid, 0) < hw.devices.len() || has_room(hw),
        hw.next_registration < u64::MAX,
        fuel >= hw.devices.len() + 9,
        at_most_one(hw, uid),
        hw.device(input.0).uid != uid,
        hw.device(output.0).uid != uid,
    ensures
        ({
            let first = run_start(StartView::begin(uid, input, output), hw, fuel);
            let last = run_stop(StopView::begin(first.1->Done_0), first.0, fuel);
            let session = first.1->Done_0;
            &&& first.1 is Done
            &&& session.device.input == input
            &&& session.device.output == output
            &&& first.0.has(session.device.device.0)
            &&& first.0.device(session.device.device.0).uid == uid
            &&& first.0.device(session.device.device.0).sub_devices == sub_device_list(
                input,
                output,
                hw.device(input.0).uid,
                hw.device(output.0).uid,
            )
            &&& last.1 == Step::<StopView, ()>::Done(())
            &&& forall|i: int|
                0 <= i < last.0.devices.len() ==> (#[trigger] last.0.devices[i]).uid != uid
            &&& last.0.has(input.0)
            &&& last.0.has(output.0)
            &&& last.0.device(input.0) == hw.device(input.0)
            &&& last.0.device(output.0) == hw.device(output.0)
            &&& last.0.registrations == hw.registrations
            &&& last.0.running == hw.running
        }),
{
    lemma_start(hw, uid, input, output, fuel);
    lemma_start_then_stop(hw, uid, input, output, fuel);
    lemma_no_virtual_device_left(hw, uid, input, output, fuel);
    lemma_first_with_uid(hw, uid, 0);
    let found = first_with_uid(hw, uid, 0);
    let device = attached_device(hw, uid);
    let base = if found < hw.devices.len() {
        hw
    } else {
        created(hw, uid)
    };
    if found >= hw.devices.len() {
        lemma_created(hw, uid);
    }
    assert(base.devices[found].id == device.0);
    assert(base.devices[found].uid == uid);
    lemma_place(base, found);
    lemma_rewired(base, device.0, input, output);
    let mid = attached(hw, uid, input, output);
    lemma_place(mid, found);
    lemma_started(mid, device.0);
    let hw1 = started(mid, device.0);
    lemma_place(hw1, found);
    lemma_kept(hw, uid, input, output, input.0);
    lemma_kept(hw, uid, input, output, output.0);
    assert(hw1.registrations.contains((device.0, hw.next_registration)));
    lemma_stop(
        hw1,
        CASessionView {
            device: AggregateDeviceView { plugin_id: hw.plugin, device, input, output },
            callback: Some(hw.next_registration),
        },
        fuel,
    );
    let hw2 = stopped(hw1, device.0, hw.next_registration);
    lemma_stopped(hw1, device.0, hw.next_registration);
    assert(hw1.has(input.0) && hw1.has(output.0));
    assert(hw2.has(input.0) && hw2.has(output.0));
}

/// A device of the model that is not identified by `uid` is not the
/// virtual device of an attachment, and the attachment and the start that
/// follows leave it as it was.
pub proof fn lemma_kept(hw: Hardware, uid: Seq<char>, input: CADevice, output: CADevice, id: u32)
    requires
        hw.wf(),
        hw.has(id),
        hw.device(id).uid != uid,
        first_with_uid(hw, uid, 0) < hw.devices.len() || has_room(hw),
    ensures
        id != attached_device(hw, uid).0,
        started(attached(hw, uid, input, output), attached_device(hw, uid).0).has(id),
        started(attached(hw, uid, input, output), attached_device(hw, uid).0).device(id)
            == hw.device(id),
{
    lemma_first_with_uid(hw, uid, 0);
    let found = first_with_uid(hw, uid, 0);
    let device = attached_device(hw, uid);
    let p = hw.place(id);
    assert(hw.is_at(id, p));
    lemma_place(hw, p);
    let base = if found < hw.devices.len() {
        hw
    } else {
        created(hw, uid)
    };
    if found < hw.devices.len() {
        lemma_place(hw, found);
    } else {
        lemma_created(hw, uid);
    }
    assert(base.devices[p] == hw.devices[p]);
    assert(base.devices[found].id == device.0);
    lemma_place(base, found);
    lemma_place(base, p);
    lemma_rewired(base, device.0, input, output);
    let mid = attached(hw, uid, input, output);
    assert(mid.devices[p] == base.devices[p]);
    lemma_place(mid, p);
    let after = started(mid, device.0);
    assert(after.is_at(id, p));
    assert(mid.is_at(id, after.place(id)));
}

/// The teardown of a session leaves a model that is in order in order,
/// takes the virtual device out of it, and leaves every other device as it
/// was.
pub proof fn lemma_stopped(hw: Hardware, device: u32, proc_id: u64)
    requires
        hw.wf(),
        hw.has(device),
    ensures
        stopped(hw, device, proc_id).wf(),
        !stopped(hw, device, proc_id).has(device),
        forall|id: u32|
            id != device && hw.has(id) ==> stopped(hw, device, proc_id).has(id) && stopped(
                hw,
                device,
                proc_id,
            ).device(id) == hw.device(id),
{
    let s = stopped(hw, device, proc_id);
    let p = hw.place(device);
    assert(hw.is_at(device, p));
    assert forall|i: int| 0 <= i < s.devices.len() implies #[trigger] s.devices[i]
        == hw.devices[if i < p {
        i
    } else {
        i + 1
    }] by {}
    assert(s.devices.len() * DEVICE_ID_SIZE <= u32::MAX) by (nonlinear_arith)
        requires
            s.devices.len() <= hw.devices.len(),
            hw.devices.len() * DEVICE_ID_SIZE <= u32::MAX,
    ;
    assert(s.wf());
    if s.has(device) {
        let i = s.place(device);
        assert(s.is_at(device, i));
    }
    assert forall|id: u32| id != device && hw.has(id) implies s.has(id) && s.device(id)
        == hw.device(id) by {
        let i = hw.place(id);
        assert(hw.is_at(id, i));
        lemma_place(hw, i);
        let j = if i < p {
            i
        } else {
            i - 1
        };
        assert(s.devices[j] == hw.devices[i]);
        lemma_place(s, j);
    }
}

/// Swap correctness. Against the model as a refresh has left it, a read of
/// the sub-device list of the virtual device yields the list that joins
/// input and output, whose first entry is the input's identifying string.
pub proof fn lemma_read_back(hw: Hardware, device: u32, input: CADevice, output: CADevice)
    requires
        hw.wf(),
        hw.has(device),
        hw.has(input.0),
        hw.has(output.0),
    ensures
        ({
            let list = sub_device_list(
                input,
                output,
                hw.device(input.0).uid,
                hw.device(output.0).uid,
            );
            let reply = respond(
                rewired(hw, device, input, output),
                reading(
                    PayloadKind::Array,
                    device,
                    address_of::<Master, Global, AggregateDevicePropertyFullSubDeviceList>(),
                ).pending,
            ).1;
            &&& reply.data == PayloadView::Array(list)
            &&& list[0] == hw.device(input.0).uid
        }),
{
    let r = rewired(hw, device, input, output);
    let p = hw.place(device);
    assert(hw.is_at(device, p));
    lemma_rewired(hw, device, input, output);
    lemma_place(r, p);
}

/// Round trip. Against the model, the nominal sample rate that is written
/// to a device is the one that the next read of it yields.
pub proof fn lemma_nominal_rate_round_trip(hw: Hardware, device: CADevice, rate: Float64)
    requires
        hw.wf(),
        hw.has(device.0),
    ensures
        ({
            let address = address_of::<Master, Wildcard, DevicePropertyNominalSampleRate>();
            let written = respond(
                hw,
                writing(device.0, address, PayloadView::Float64(rate)).pending,
            );
            let read = respond(
                written.0,
                reading(PayloadKind::Float64, device.0, address).pending,
            );
            &&& written.1.status == 0
            &&& read.1.status == 0
            &&& read.1.data == PayloadView::Float64(rate)
        }),
{
    let address = address_of::<Master, Wildcard, DevicePropertyNominalSampleRate>();
    let p = hw.place(device.0);
    assert(hw.is_at(device.0, p));
    let w = hw.with_device(p, DeviceModel { nominal_rate: rate, ..hw.device(device.0) });
    assert(w.is_at(device.0, p));
    assert(w.wf());
    lemma_place(w, p);
}

/// The run of a device swap against the model.
pub open spec fn run_swap(m: SwapView, hw: Hardware, fuel: nat) -> (Hardware, Step<SwapView, ()>)
    decreases fuel,
{
    if fuel == 0 {
        (hw, Step::Continue(m))
    } else {
        let (next, reply) = respond(hw, m.pending());
        match m.advance(reply) {
            Step::Continue(m2) => run_swap(m2, next, (fuel - 1) as nat),
            step => (next, step),
        }
    }
}

/// A device swap on a started session, run against a model that has the
/// session's registration, its virtual device and its new input and output,
/// ends well after no more than five replies: the virtual device is
/// rewired to the devices that the session names, its clock runs, and
/// nothing else has changed.
pub proof fn lemma_swap(hw: Hardware, session: CASessionView, fuel: nat)
    requires
        hw.wf(),
        session.callback is Some,
        hw.registrations.contains((session.device.device.0, session.callback->0)),
        hw.has(session.device.device.0),
        hw.has(session.device.input.0),
        hw.has(session.device.output.0),
        fuel >= 5,
    ensures
        run_swap(SwapView::begin(session), hw, fuel) == (
            Hardware {
                running: hw.running.insert((session.device.device.0, session.callback->0)),
                ..rewired(
                    hw,
                    session.device.device.0,
                    session.device.input,
                    session.device.output,
                )
            },
            Step::<SwapView, ()>::Done(()),
        ),
{
    reveal_with_fuel(run_swap, 6);
    let x = (session.device.device.0, session.callback->0);
    let paused = Hardware { running: hw.running.remove(x), ..hw };
    assert(respond(hw, SwapView::begin(session).pending()).0 == paused);
    assert forall|id: u32| hw.has(id) implies paused.has(id) && paused.device(id) == hw.device(
        id,
    ) && paused.place(id) == hw.place(id) by {
        assert(hw.is_at(id, hw.place(id)));
        assert(paused.is_at(id, hw.place(id)));
    }
    assert(paused.wf());
    assert(hw.running.remove(x).insert(x) =~= hw.running.insert(x));
}

/// Start order. Whatever the replies, a session start asks for the
/// hardware clock to be started only in the step that follows a successful
/// registration, and by then the session holds the registration that the
/// request names.
pub proof fn lemma_clock_starts_after_registration(
    m: StartView,
    reply: crate::protocol::ReplyView,
)
    requires
        m.wf(),
        m.advance(reply) is Continue,
        m.advance(reply)->Continue_0.pending() is DeviceStart,
    ensures
        m is Registering,
        reply.status == 0,
        m.advance(reply)->Continue_0 is Starting,
        m.advance(reply)->Continue_0->Starting_session.callback == Some(reply.data.proc_id()),
        m.advance(reply)->Continue_0.pending() == (crate::protocol::RequestView::DeviceStart {
            device: m->Registering_session.device.device.0,
            proc_id: reply.data.proc_id(),
        }),
{
}

} // verus!
