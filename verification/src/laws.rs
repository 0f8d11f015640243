//! What holds of the manager on every input: facts about single steps and about whole
//! sequences of events, each proved from the state machine's definition.

use crate::data::OpenMessageView;
use crate::port::resolved;
use crate::serial::{
    not_open_failure, open_failure, read_failure, write_failure, ActionView, ByteDirection,
    EventView, GuiMessageView, ManagerView, NotificationView, SessionView, StepView,
};
use crate::trace::{emitted, listed, run};
use vstd::prelude::*;

verus! {

/// The four failure reports are four different notifications.
pub proof fn reports_differ()
    ensures
        open_failure() != write_failure(),
        open_failure() != not_open_failure(),
        open_failure() != read_failure(),
        write_failure() != not_open_failure(),
        write_failure() != read_failure(),
        not_open_failure() != read_failure(),
{
    reveal_strlit("Cannot open the port");
    reveal_strlit("Cannot write data on the port");
    reveal_strlit("Cannot write data port not open");
    reveal_strlit("Error while reading data");
    assert("Cannot open the port"@.len() == 20);
    assert("Cannot write data on the port"@.len() == 29);
    assert("Cannot write data port not open"@.len() == 31);
    assert("Error while reading data"@.len() == 24);
}

/// Running a sequence of events and then another is running the two joined: the same
/// final state, and the notifications of the first followed by those of the second.
pub proof fn run_in_parts<H>(
    state: ManagerView<H>,
    first: Seq<EventView<H>>,
    second: Seq<EventView<H>>,
)
    ensures
        run(state, first + second) == run(run(state, first), second),
        emitted(state, first + second) == emitted(state, first) + emitted(
            run(state, first),
            second,
        ),
    decreases second.len(),
{
    if second.len() == 0 {
        assert(first + second == first);
    } else {
        run_in_parts(state, first, second.drop_last());
        assert((first + second).drop_last() == first + second.drop_last());
        assert((first + second).last() == second.last());
    }
}

/// One event alone leads to the next state and to its notification, if it has one.
pub proof fn run_of_one<H>(state: ManagerView<H>, event: EventView<H>)
    ensures
        run(state, seq![event]) == state.next(event),
        emitted(state, seq![event]) == listed(state.notification(event)),
{
    let events = seq![event];
    assert(events.drop_last() == Seq::<EventView<H>>::empty());
    assert(events.last() == event);
    assert(run(state, events.drop_last()) == state);
    assert(emitted(state, events.drop_last()) == Seq::<NotificationView>::empty());
}

/// Two events in a row.
pub proof fn run_of_two<H>(state: ManagerView<H>, first: EventView<H>, second: EventView<H>)
    ensures
        run(state, seq![first, second]) == state.next(first).next(second),
        emitted(state, seq![first, second]) == listed(state.notification(first)) + listed(
            state.next(first).notification(second),
        ),
{
    run_of_one(state, first);
    run_of_one(state.next(first), second);
    run_in_parts(state, seq![first], seq![second]);
    assert(seq![first] + seq![second] == seq![first, second]);
}

/// `count` read failures in a row, each followed by a reconnection that fails too.
pub open spec fn failure_run<H>(count: nat) -> Seq<EventView<H>>
    decreases count,
{
    if count == 0 {
        seq![]
    } else {
        failure_run::<H>((count - 1) as nat) + seq![EventView::ReadFailed, EventView::OpenFailed]
    }
}

/// The session `session` once a read failure of it has been reported.
pub open spec fn flagged<H>(session: SessionView<H>) -> SessionView<H> {
    SessionView { error_flagged: true, ..session }
}

/// However many read failures follow one another without a reconnection that works, the
/// session stays with its device, and they are reported once if none was reported
/// before them, and not at all if one was.
pub proof fn failures_reported_once<H>(session: SessionView<H>, count: nat)
    requires
        count >= 1,
    ensures
        run(ManagerView::Active { session }, failure_run(count)) == (ManagerView::Active {
            session: flagged(session),
        }),
        emitted(ManagerView::Active { session }, failure_run(count)) == if session.error_flagged {
            seq![]
        } else {
            seq![read_failure()]
        },
    decreases count,
{
    let start = ManagerView::Active { session };
    let pair = seq![EventView::<H>::ReadFailed, EventView::<H>::OpenFailed];
    let before = failure_run::<H>((count - 1) as nat);
    run_in_parts(start, before, pair);
    if count == 1 {
        assert(before == Seq::<EventView<H>>::empty());
        run_of_two(start, EventView::ReadFailed, EventView::OpenFailed);
    } else {
        failures_reported_once(session, (count - 1) as nat);
        run_of_two(
            ManagerView::Active { session: flagged(session) },
            EventView::ReadFailed,
            EventView::OpenFailed,
        );
    }
}

/// A run of read failures that ends in a reconnection that works, and then another run
/// of read failures: each of the two runs is reported once. The session is then on the
/// device that the reconnection opened.
pub proof fn report_again_after_reconnect<H>(
    session: SessionView<H>,
    handle: H,
    first: nat,
    second: nat,
)
    requires
        !session.error_flagged,
        second >= 1,
    ensures
        emitted(
            ManagerView::Active { session },
            failure_run(first) + seq![EventView::ReadFailed, EventView::Opened(handle)]
                + failure_run(second),
        ) == seq![read_failure(), read_failure()],
        run(
            ManagerView::Active { session },
            failure_run(first) + seq![EventView::ReadFailed, EventView::Opened(handle)]
                + failure_run(second),
        ) == (ManagerView::Active {
            session: SessionView { handle, config: session.config, error_flagged: true },
        }),
{
    let start = ManagerView::Active { session };
    let reconnect = seq![EventView::ReadFailed, EventView::Opened(handle)];
    let fresh = SessionView { handle, config: session.config, error_flagged: false };
    let middle = if first == 0 {
        start
    } else {
        ManagerView::Active { session: flagged(session) }
    };
    if first >= 1 {
        failures_reported_once(session, first);
    }
    assert(run(start, failure_run(first)) == middle);
    run_of_two(middle, EventView::ReadFailed, EventView::Opened(handle));
    run_in_parts(start, failure_run(first), reconnect);
    assert(run(start, failure_run(first) + reconnect) == (ManagerView::Active { session: fresh }));
    assert(emitted(start, failure_run(first) + reconnect) == seq![read_failure()]);
    failures_reported_once(fresh, second);
    run_in_parts(start, failure_run(first) + reconnect, failure_run(second));
}

/// Whether no event of `events` says that a device was opened.
pub open spec fn none_opened<H>(events: Seq<EventView<H>>) -> bool {
    forall|i: int| 0 <= i < events.len() ==> !(#[trigger] events[i] is Opened)
}

/// How often `notification` occurs in `notifications`.
pub open spec fn occurrences(notifications: Seq<NotificationView>, notification: NotificationView) -> nat
    decreases notifications.len(),
{
    if notifications.len() == 0 {
        0
    } else {
        occurrences(notifications.drop_last(), notification) + if notifications.last()
            == notification {
            1nat
        } else {
            0nat
        }
    }
}

/// How many reports of a read failure `state` can still give before a device is opened.
pub open spec fn reports_left<H>(state: ManagerView<H>) -> nat {
    match state.session() {
        Some(session) => if session.error_flagged {
            0
        } else {
            1
        },
        None => 0,
    }
}

/// As long as no device is opened, read failures are reported at most once, whatever
/// else happens, and not at all where the session's failure was reported before or no
/// device is open.
pub proof fn at_most_one_report_until_opened<H>(state: ManagerView<H>, events: Seq<EventView<H>>)
    requires
        none_opened(events),
    ensures
        occurrences(emitted(state, events), read_failure()) + reports_left(run(state, events))
            <= reports_left(state),
    decreases events.len(),
{
    reports_differ();
    if events.len() > 0 {
        let before = events.drop_last();
        assert forall|i: int| 0 <= i < before.len() implies !(#[trigger] before[i] is Opened) by {
            assert(before[i] == events[i]);
        }
        at_most_one_report_until_opened(state, before);
        let reached = run(state, before);
        let last = listed(reached.notification(events.last()));
        let all = emitted(state, before) + last;
        assert(!(events.last() is Opened));
        if last.len() == 0 {
            assert(all == emitted(state, before));
        } else {
            assert(all.drop_last() == emitted(state, before));
            assert(all.last() == last[0]);
        }
    }
}

/// Without a device open, a request to write leaves the manager as it is, is answered
/// with the report that no port is open, and hands nothing to any device.
pub proof fn write_without_device<H>(data: Seq<u8>)
    ensures
        ManagerView::<H>::Idle.next(EventView::Command(GuiMessageView::Write(data)))
            == ManagerView::<H>::Idle,
        ManagerView::<H>::Idle.outcome(EventView::Command(GuiMessageView::Write(data)))
            == (StepView {
            notification: Some(not_open_failure()),
            action: ActionView::AwaitCommand,
        }),
{
}

/// Whether every event of `events` is a request to write or to close.
pub open spec fn only_writes_and_closes<H>(events: Seq<EventView<H>>) -> bool {
    forall|i: int|
        0 <= i < events.len() ==> (#[trigger] events[i] matches EventView::Command(command)
            && !(command is Open))
}

/// How many events of `events` are requests to write.
pub open spec fn writes<H>(events: Seq<EventView<H>>) -> nat
    decreases events.len(),
{
    if events.len() == 0 {
        0
    } else {
        writes(events.drop_last()) + if events.last() matches EventView::Command(
            GuiMessageView::Write(_),
        ) {
            1nat
        } else {
            0nat
        }
    }
}

/// Before any device was asked for, requests to write and to close leave the manager
/// without a device, and each request to write is answered with the report that no port
/// is open, and with nothing else.
pub proof fn writes_before_open<H>(events: Seq<EventView<H>>)
    requires
        only_writes_and_closes(events),
    ensures
        run(ManagerView::<H>::Idle, events) == ManagerView::<H>::Idle,
        emitted(ManagerView::<H>::Idle, events).len() == writes(events),
        forall|i: int|
            0 <= i < emitted(ManagerView::<H>::Idle, events).len() ==> emitted(
                ManagerView::<H>::Idle,
                events,
            )[i] == not_open_failure(),
    decreases events.len(),
{
    if events.len() > 0 {
        let before = events.drop_last();
        assert forall|i: int| 0 <= i < before.len() implies (#[trigger] before[i] matches EventView::Command(
            command,
        ) && !(command is Open)) by {
            assert(before[i] == events[i]);
        }
        writes_before_open(before);
        assert(events.last() == events[events.len() - 1]);
    }
}

/// On an open device, bytes that the user interface asks to write are handed to the
/// device as they are, and once the device took them they are reported as they are,
/// as bytes that went out.
pub proof fn write_round_trip<H>(session: SessionView<H>, data: Seq<u8>)
    ensures
        (ManagerView::Active { session }).outcome(EventView::Command(GuiMessageView::Write(data)))
            == (StepView { notification: None, action: ActionView::Write(data) }),
        run(
            ManagerView::Active { session },
            seq![EventView::Command(GuiMessageView::Write(data)), EventView::Written],
        ) == (ManagerView::Active { session }),
        emitted(
            ManagerView::Active { session },
            seq![EventView::Command(GuiMessageView::Write(data)), EventView::Written],
        ) == seq![NotificationView::Data(ByteDirection::Out, data)],
{
    run_of_two(
        ManagerView::Active { session },
        EventView::Command(GuiMessageView::Write(data)),
        EventView::Written,
    );
}

/// Bytes that the device refused are reported as a failure to write and never as data;
/// the session stays open on the same device.
pub proof fn write_refused<H>(session: SessionView<H>, data: Seq<u8>)
    ensures
        run(
            ManagerView::Active { session },
            seq![EventView::Command(GuiMessageView::Write(data)), EventView::WriteFailed],
        ) == (ManagerView::Active { session }),
        emitted(
            ManagerView::Active { session },
            seq![EventView::Command(GuiMessageView::Write(data)), EventView::WriteFailed],
        ) == seq![write_failure()],
{
    run_of_two(
        ManagerView::Active { session },
        EventView::Command(GuiMessageView::Write(data)),
        EventView::WriteFailed,
    );
}

/// Bytes read from the open device are reported as they are, as bytes that came in.
pub proof fn inbound_passes_through<H>(session: SessionView<H>, data: Seq<u8>)
    ensures
        (ManagerView::Active { session }).next(EventView::Inbound(data)) == (ManagerView::Active {
            session,
        }),
        (ManagerView::Active { session }).notification(EventView::Inbound(data)) == Some(
            NotificationView::Data(ByteDirection::In, data),
        ),
{
}

/// Data is reported only for what happened: bytes that went out only once the device
/// took the bytes handed to it, and then those bytes; bytes that came in only when a
/// chunk was read from the open device, and then that chunk.
pub proof fn data_reports_what_happened<H>(
    state: ManagerView<H>,
    event: EventView<H>,
    direction: ByteDirection,
    data: Seq<u8>,
)
    requires
        state.notification(event) == Some(NotificationView::Data(direction, data)),
    ensures
        direction == ByteDirection::Out ==> event is Written && (state matches ManagerView::Writing {
            data: handed,
            ..
        } && handed == data),
        direction == ByteDirection::In ==> state is Active && event == EventView::<H>::Inbound(data),
{
    reports_differ();
}

/// A request to open with another configuration, on an open session: if the new device
/// opens, the session is on the new device with the new configuration and a clean
/// failure flag, the old handle is gone, and nothing is reported.
pub proof fn swap_takes_new_device<H>(
    session: SessionView<H>,
    candidate: OpenMessageView,
    handle: H,
)
    ensures
        (ManagerView::Active { session }).outcome(
            EventView::Command(GuiMessageView::Open(candidate)),
        ) == (StepView { notification: None, action: ActionView::Open(resolved(candidate)) }),
        run(
            ManagerView::Active { session },
            seq![EventView::Command(GuiMessageView::Open(candidate)), EventView::Opened(handle)],
        ) == (ManagerView::Active {
            session: SessionView { handle, config: candidate, error_flagged: false },
        }),
        emitted(
            ManagerView::Active { session },
            seq![EventView::Command(GuiMessageView::Open(candidate)), EventView::Opened(handle)],
        ) == Seq::<NotificationView>::empty(),
{
    run_of_two(
        ManagerView::Active { session },
        EventView::Command(GuiMessageView::Open(candidate)),
        EventView::Opened(handle),
    );
}

/// A request to open with another configuration, on an open session: if the new device
/// does not open, the session is as it was, on the old device with the old
/// configuration, and the failure to open is reported.
pub proof fn swap_keeps_old_device<H>(session: SessionView<H>, candidate: OpenMessageView)
    ensures
        run(
            ManagerView::Active { session },
            seq![EventView::Command(GuiMessageView::Open(candidate)), EventView::OpenFailed],
        ) == (ManagerView::Active { session }),
        emitted(
            ManagerView::Active { session },
            seq![EventView::Command(GuiMessageView::Open(candidate)), EventView::OpenFailed],
        ) == seq![open_failure()],
{
    run_of_two(
        ManagerView::Active { session },
        EventView::Command(GuiMessageView::Open(candidate)),
        EventView::OpenFailed,
    );
}

/// The device that a session works on, and the configuration it was opened with,
/// change only when a device was opened: after any other event, a session that is still
/// there has the handle and the configuration it had.
pub proof fn device_kept_until_opened<H>(state: ManagerView<H>, events: Seq<EventView<H>>)
    requires
        none_opened(events),
    ensures
        run(state, events).session() matches Some(after) ==> (state.session() matches Some(before)
            && after.handle == before.handle && after.config == before.config),
    decreases events.len(),
{
    if events.len() > 0 {
        let before = events.drop_last();
        assert forall|i: int| 0 <= i < before.len() implies !(#[trigger] before[i] is Opened) by {
            assert(before[i] == events[i]);
        }
        device_kept_until_opened(state, before);
        assert(!(events.last() is Opened));
    }
}

/// Bytes are handed to a device only while a session is open, and the device is then
/// the one of that session.
pub proof fn writes_go_to_session<H>(state: ManagerView<H>, event: EventView<H>)
    requires
        state.accepts(event),
        state.outcome(event).action is Write,
    ensures
        state is Active,
        state.next(event).session() == state.session(),
{
}

/// Whether no event of `events` is a request of the user interface.
pub open spec fn no_commands<H>(events: Seq<EventView<H>>) -> bool {
    forall|i: int| 0 <= i < events.len() ==> !(#[trigger] events[i] is Command)
}

/// A request to close an open session ends it at once and without a word, whether or
/// not its device was failing; whatever a device says afterwards, nothing is reported
/// and no session arises, until the user interface asks for one.
pub proof fn close_is_silent<H>(session: SessionView<H>, events: Seq<EventView<H>>)
    requires
        no_commands(events),
    ensures
        (ManagerView::Active { session }).next(EventView::Command(GuiMessageView::Close))
            == ManagerView::<H>::Idle,
        (ManagerView::Active { session }).outcome(EventView::Command(GuiMessageView::Close))
            == (StepView { notification: None, action: ActionView::AwaitCommand }),
        emitted(ManagerView::<H>::Idle, events) == Seq::<NotificationView>::empty(),
        run(ManagerView::<H>::Idle, events).session() is None,
        run(ManagerView::<H>::Idle, events) is Idle || run(ManagerView::<H>::Idle, events) is Stopped,
    decreases events.len(),
{
    if events.len() > 0 {
        let before = events.drop_last();
        assert forall|i: int| 0 <= i < before.len() implies !(#[trigger] before[i] is Command) by {
            assert(before[i] == events[i]);
        }
        close_is_silent(session, before);
        assert(!(events.last() is Command));
    }
}

/// Once the user interface is gone the manager has stopped for good: no event changes
/// it, and none is reported.
pub proof fn stopped_for_good<H>(events: Seq<EventView<H>>)
    ensures
        run(ManagerView::<H>::Stopped, events) == ManagerView::<H>::Stopped,
        emitted(ManagerView::<H>::Stopped, events) == Seq::<NotificationView>::empty(),
    decreases events.len(),
{
    if events.len() > 0 {
        stopped_for_good(events.drop_last());
    }
}

/// An event that cannot be what came of the outstanding action changes nothing and is
/// not reported.
pub proof fn stray_events_ignored<H>(state: ManagerView<H>, event: EventView<H>)
    requires
        !state.accepts(event),
    ensures
        state.next(event) == state,
        state.notification(event) is None,
        state.outcome(event).action == state.awaited(),
{
}

} // verus!
