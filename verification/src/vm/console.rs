//! Consoles: what passes between a client and the console of a virtual machine.
use crate::rpc::{Code, RpcStatus};
use crate::text;
use crate::vm::vmm::VmmError;
use vstd::prelude::*;

verus! {

/// A message of a client to a console.
pub enum ConsoleMessage {
    /// Names the virtual machine.
    Attach { vm_id: String },
    /// What the client types.
    Data(Vec<u8>),
    /// A message without content.
    Empty,
}

/// The virtual machine that a client wants the console of, from its first message.
pub fn get_attach_message(first: Option<Result<ConsoleMessage, RpcStatus>>) -> (r: Result<
    String,
    RpcStatus,
>)
    ensures
        match first {
            None => r matches Err(s) && s.says(
                Code::InvalidArgument,
                "Client disconnected before sending Attach message."@,
            ),
            Some(Err(s)) => r == Err::<String, RpcStatus>(s),
            Some(Ok(ConsoleMessage::Attach { vm_id })) => r == Ok::<String, RpcStatus>(vm_id),
            Some(Ok(_)) => r matches Err(s) && s.says(
                Code::InvalidArgument,
                "First message must be an Attach message."@,
            ),
        },
{
    match first {
        None => Err(
            RpcStatus::new(
                Code::InvalidArgument,
                "Client disconnected before sending Attach message.",
            ),
        ),
        Some(Err(s)) => Err(s),
        Some(Ok(message)) => match message {
            ConsoleMessage::Attach { vm_id } => Ok(vm_id),
            _ => Err(
                RpcStatus::new(Code::InvalidArgument, "First message must be an Attach message."),
            ),
        },
    }
}

/// How far a console has come.
pub enum ConsoleProgress {
    /// The first message of the client.
    Opened(Option<Result<ConsoleMessage, RpcStatus>>),
    /// The socket of the console, if there is one.
    Located(Result<String, VmmError>),
}

/// What to do next for a console.
pub enum ConsoleStep {
    /// Find the socket of the console.
    Locate { vm_id: String },
    /// Connect to the socket and pass on what comes from either side.
    Bridge { socket_path: String },
    /// Tell the client an error; the console is closed.
    Fail(RpcStatus),
}

/// Whether the console is closed with this status.
pub open spec fn fails(step: ConsoleStep, code: Code, message: Seq<char>) -> bool {
    step matches ConsoleStep::Fail(s) && s.says(code, message)
}

/// The next step of a console: the client names a virtual machine, and the socket
/// of its console is found.
pub fn handle_stream_vm_console(progress: ConsoleProgress) -> (step: ConsoleStep)
    ensures
        match progress {
            ConsoleProgress::Opened(None) => fails(
                step,
                Code::InvalidArgument,
                "Client disconnected before sending Attach message."@,
            ),
            ConsoleProgress::Opened(Some(Err(s))) => step == ConsoleStep::Fail(s),
            ConsoleProgress::Opened(Some(Ok(ConsoleMessage::Attach { vm_id }))) => step == (
            ConsoleStep::Locate { vm_id }),
            ConsoleProgress::Opened(Some(Ok(_))) => fails(
                step,
                Code::InvalidArgument,
                "First message must be an Attach message."@,
            ),
            ConsoleProgress::Located(Ok(socket_path)) => step == (ConsoleStep::Bridge {
                socket_path,
            }),
            ConsoleProgress::Located(Err(e)) => fails(step, e.code(), e.detail()),
        },
{
    match progress {
        ConsoleProgress::Opened(first) => match get_attach_message(first) {
            Ok(vm_id) => ConsoleStep::Locate { vm_id },
            Err(s) => ConsoleStep::Fail(s),
        },
        ConsoleProgress::Located(located) => match located {
            Ok(socket_path) => ConsoleStep::Bridge { socket_path },
            Err(e) => ConsoleStep::Fail(e.into_status()),
        },
    }
}

/// What happens on either side of a bridge between a client and a console.
pub enum BridgeEvent {
    /// The socket of the console could not be connected to.
    NotConnected(String),
    /// Nothing reaches the client any more.
    ClientGone,
    /// The console wrote these bytes; none means that it is closed.
    ConsoleRead(Vec<u8>),
    /// The console could not be read.
    ConsoleFailed(String),
    /// The client sent a message.
    ClientSent(ConsoleMessage),
    /// The client's stream failed.
    ClientFailed,
    /// The client's stream ended.
    ClientEnded,
    /// Whether what the client typed reached the console.
    ConsoleWritten(bool),
}

/// What a bridge between a client and a console does.
pub enum BridgeAction {
    /// Pass what the console wrote on to the client.
    ToClient(Vec<u8>),
    /// Pass what the client typed on to the console.
    ToConsole(Vec<u8>),
    /// Tell the client an error. The direction that it concerns is over.
    Fail(RpcStatus),
    /// Wait for the next event.
    Wait,
    /// Close the bridge.
    Close,
}

/// A bridge between a client and a console: in which directions it is open. One can be
/// over while bytes still pass in the other.
#[derive(Clone, Copy, Debug, PartialEq, Eq, Structural)]
pub struct Bridge {
    /// Whether what the console writes is still passed on to the client.
    pub to_client: bool,
    /// Whether what the client types is still passed on to the console.
    pub to_console: bool,
}

/// A bridge that is open in both directions.
pub open spec fn open_bridge() -> Bridge {
    Bridge { to_client: true, to_console: true }
}

/// A bridge that is closed.
pub open spec fn closed_bridge() -> Bridge {
    Bridge { to_client: false, to_console: false }
}

impl Bridge {
    /// A bridge that is open in both directions.
    pub fn new() -> (r: Bridge)
        ensures
            r == open_bridge(),
    {
        Bridge { to_client: true, to_console: true }
    }

    /// What there is to do where nothing is passed on: to wait, or to close the bridge
    /// once both directions are over.
    pub open spec fn rests(self) -> BridgeAction {
        if self.to_client || self.to_console {
            BridgeAction::Wait
        } else {
            BridgeAction::Close
        }
    }

    fn rest(&self) -> (action: BridgeAction)
        ensures
            action == self.rests(),
    {
        if self.to_client || self.to_console {
            BridgeAction::Wait
        } else {
            BridgeAction::Close
        }
    }
}

/// What `format!("{:?}")` gives for a `std::path::Path`.
pub uninterp spec fn quoted_path(path: Seq<char>) -> Seq<char>;

/// Formats a `std::path::Path` with `{:?}`: the path in quotes, with what cannot be
/// printed escaped. What it gives depends on the path alone.
#[verifier::external_body]
fn quote_path(path: &str) -> (r: String)
    ensures
        r@ == quoted_path(path@),
{
    format!("{:?}", std::path::Path::new(path))
}

/// Whether the client is told this status.
pub open spec fn breaks(action: BridgeAction, code: Code, message: Seq<char>) -> bool {
    action matches BridgeAction::Fail(s) && s.says(code, message)
}

/// Whether nothing that the client types is passed on any more after an event.
pub open spec fn ends_typing(event: BridgeEvent) -> bool {
    match event {
        BridgeEvent::NotConnected(_) => true,
        BridgeEvent::ClientSent(ConsoleMessage::Attach { .. }) => true,
        BridgeEvent::ClientSent(ConsoleMessage::Empty) => true,
        BridgeEvent::ClientFailed => true,
        BridgeEvent::ClientEnded => true,
        BridgeEvent::ConsoleWritten(done) => !done,
        _ => false,
    }
}

/// Whether nothing that the console writes is passed on any more after an event.
pub open spec fn ends_showing(event: BridgeEvent) -> bool {
    match event {
        BridgeEvent::NotConnected(_) => true,
        BridgeEvent::ClientGone => true,
        BridgeEvent::ConsoleRead(output) => output@.len() == 0,
        BridgeEvent::ConsoleFailed(_) => true,
        _ => false,
    }
}

/// A bridge after an event. Each direction ends by itself; only a console that cannot be
/// connected to ends both.
pub open spec fn bridge_after(before: Bridge, event: BridgeEvent) -> Bridge {
    Bridge {
        to_client: before.to_client && !ends_showing(event),
        to_console: before.to_console && !ends_typing(event),
    }
}

/// What a bridge does with what happens, and what it then is. What happens in a direction
/// that is over already leads to nothing.
pub open spec fn bridge_next(
    before: Bridge,
    socket_path: Seq<char>,
    event: BridgeEvent,
    after: Bridge,
    action: BridgeAction,
) -> bool {
    &&& after == bridge_after(before, event)
    &&& match event {
        BridgeEvent::NotConnected(e) if before != closed_bridge() => breaks(
            action,
            Code::Unavailable,
            "Failed to connect to console socket at "@ + quoted_path(socket_path) + ": "@ + e@,
        ),
        BridgeEvent::ConsoleRead(output) if before.to_client && output@.len() > 0 => action
            == BridgeAction::ToClient(output),
        BridgeEvent::ConsoleFailed(e) if before.to_client => breaks(
            action,
            Code::Internal,
            "Error reading from console socket: "@ + e@,
        ),
        BridgeEvent::ClientSent(message) if before.to_console => match message {
            ConsoleMessage::Data(input) => action == BridgeAction::ToConsole(input),
            ConsoleMessage::Attach { .. } => breaks(
                action,
                Code::InvalidArgument,
                "Cannot send Attach message more than once."@,
            ),
            ConsoleMessage::Empty => breaks(
                action,
                Code::InvalidArgument,
                "Empty ConsoleInput payload."@,
            ),
        },
        _ => action == after.rests(),
    }
}

/// Tells a client that its console cannot be connected to; `path` is the socket in
/// quotes.
pub fn refuse_connection(path: &str, e: &str) -> (action: BridgeAction)
    ensures
        breaks(
            action,
            Code::Unavailable,
            "Failed to connect to console socket at "@ + path@ + ": "@ + e@,
        ),
{
    BridgeAction::Fail(
        RpcStatus {
            code: Code::Unavailable,
            message: text::cat4("Failed to connect to console socket at ", path, ": ", e),
        },
    )
}

/// What a bridge does with what happens: bytes pass unchanged in each direction until
/// that direction is over, and none once the bridge is closed.
pub fn bridge_console_streams(bridge: &mut Bridge, socket_path: &str, event: BridgeEvent) -> (action:
    BridgeAction)
    ensures
        bridge_next(*old(bridge), socket_path@, event, *final(bridge), action),
{
    match event {
        BridgeEvent::NotConnected(e) => if bridge.to_client || bridge.to_console {
            bridge.to_client = false;
            bridge.to_console = false;
            let path = quote_path(socket_path);
            refuse_connection(path.as_str(), e.as_str())
        } else {
            bridge.rest()
        },
        BridgeEvent::ClientGone => {
            bridge.to_client = false;
            bridge.rest()
        },
        BridgeEvent::ConsoleRead(output) => if bridge.to_client && output.len() > 0 {
            BridgeAction::ToClient(output)
        } else {
            if output.len() == 0 {
                bridge.to_client = false;
            }
            bridge.rest()
        },
        BridgeEvent::ConsoleFailed(e) => if bridge.to_client {
            bridge.to_client = false;
            BridgeAction::Fail(
                RpcStatus {
                    code: Code::Internal,
                    message: text::cat2("Error reading from console socket: ", e.as_str()),
                },
            )
        } else {
            bridge.rest()
        },
        BridgeEvent::ClientSent(message) => if !bridge.to_console {
            bridge.rest()
        } else {
            match message {
                ConsoleMessage::Data(input) => BridgeAction::ToConsole(input),
                ConsoleMessage::Attach { .. } => {
                    bridge.to_console = false;
                    BridgeAction::Fail(
                        RpcStatus::new(
                            Code::InvalidArgument,
                            "Cannot send Attach message more than once.",
                        ),
                    )
                },
                ConsoleMessage::Empty => {
                    bridge.to_console = false;
                    BridgeAction::Fail(
                        RpcStatus::new(Code::InvalidArgument, "Empty ConsoleInput payload."),
                    )
                },
            }
        },
        BridgeEvent::ClientFailed => {
            bridge.to_console = false;
            bridge.rest()
        },
        BridgeEvent::ClientEnded => {
            bridge.to_console = false;
            bridge.rest()
        },
        BridgeEvent::ConsoleWritten(done) => {
            bridge.to_console = bridge.to_console && done;
            bridge.rest()
        },
    }
}

/// Whether what the client types is still passed on after these events.
pub open spec fn typing(events: Seq<BridgeEvent>) -> bool {
    forall|i: int| 0 <= i < events.len() ==> !ends_typing(#[trigger] events[i])
}

/// Whether what the console writes is still passed on after these events.
pub open spec fn showing(events: Seq<BridgeEvent>) -> bool {
    forall|i: int| 0 <= i < events.len() ==> !ends_showing(#[trigger] events[i])
}

/// What the client types before that direction is over.
pub open spec fn typed(events: Seq<BridgeEvent>) -> Seq<u8>
    decreases events.len(),
{
    if events.len() == 0 {
        Seq::empty()
    } else {
        typed(events.drop_last()) + match events.last() {
            BridgeEvent::ClientSent(ConsoleMessage::Data(input)) if typing(
                events.drop_last(),
            ) => input@,
            _ => Seq::empty(),
        }
    }
}

/// What the console writes before that direction is over.
pub open spec fn output_of(events: Seq<BridgeEvent>) -> Seq<u8>
    decreases events.len(),
{
    if events.len() == 0 {
        Seq::empty()
    } else {
        output_of(events.drop_last()) + match events.last() {
            BridgeEvent::ConsoleRead(output) if showing(events.drop_last()) => output@,
            _ => Seq::empty(),
        }
    }
}

/// The bytes that are handed to the console.
pub open spec fn handed_to_console(actions: Seq<BridgeAction>) -> Seq<u8>
    decreases actions.len(),
{
    if actions.len() == 0 {
        Seq::empty()
    } else {
        handed_to_console(actions.drop_last()) + match actions.last() {
            BridgeAction::ToConsole(input) => input@,
            _ => Seq::empty(),
        }
    }
}

/// The bytes that are handed to the client.
pub open spec fn handed_to_client(actions: Seq<BridgeAction>) -> Seq<u8>
    decreases actions.len(),
{
    if actions.len() == 0 {
        Seq::empty()
    } else {
        handed_to_client(actions.drop_last()) + match actions.last() {
            BridgeAction::ToClient(output) => output@,
            _ => Seq::empty(),
        }
    }
}

/// Whether a bridge goes through these states with these events and actions, from its
/// opening on.
pub open spec fn bridge_runs(
    socket_path: Seq<char>,
    states: Seq<Bridge>,
    events: Seq<BridgeEvent>,
    actions: Seq<BridgeAction>,
) -> bool {
    &&& states.len() == events.len() + 1
    &&& actions.len() == events.len()
    &&& states[0] == open_bridge()
    &&& forall|i: int|
        0 <= i < events.len() ==> bridge_next(
            states[i],
            socket_path,
            #[trigger] events[i],
            states[i + 1],
            actions[i],
        )
}

/// Each direction goes on after one more event if it did before and the event does not
/// end it.
proof fn lemma_one_more(events: Seq<BridgeEvent>)
    requires
        events.len() > 0,
    ensures
        typing(events) == (typing(events.drop_last()) && !ends_typing(events.last())),
        showing(events) == (showing(events.drop_last()) && !ends_showing(events.last())),
{
    let es = events.drop_last();
    let n = es.len() as int;
    assert(forall|i: int| 0 <= i < n ==> #[trigger] es[i] == events[i]);
    if typing(events) {
        assert(!ends_typing(events[n]));
    } else {
        let i = choose|i: int| 0 <= i < events.len() && ends_typing(#[trigger] events[i]);
        if i < n {
            assert(ends_typing(es[i]));
        }
    }
    if showing(events) {
        assert(!ends_showing(events[n]));
    } else {
        let i = choose|i: int| 0 <= i < events.len() && ends_showing(#[trigger] events[i]);
        if i < n {
            assert(ends_showing(es[i]));
        }
    }
}

proof fn lemma_bridge_runs(
    socket_path: Seq<char>,
    states: Seq<Bridge>,
    events: Seq<BridgeEvent>,
    actions: Seq<BridgeAction>,
)
    requires
        bridge_runs(socket_path, states, events, actions),
    ensures
        states.last().to_console == typing(events),
        states.last().to_client == showing(events),
        handed_to_console(actions) == typed(events),
        handed_to_client(actions) == output_of(events),
    decreases events.len(),
{
    if events.len() > 0 {
        let n = events.len() - 1;
        let (ss, es, acts) = (states.drop_last(), events.drop_last(), actions.drop_last());
        assert forall|i: int| 0 <= i < es.len() implies bridge_next(
            ss[i],
            socket_path,
            #[trigger] es[i],
            ss[i + 1],
            acts[i],
        ) by {
            assert(es[i] == events[i]);
        }
        lemma_bridge_runs(socket_path, ss, es, acts);
        assert(ss.last() == states[n]);
        assert(bridge_next(states[n], socket_path, events[n], states[n + 1], actions[n]));
        lemma_one_more(events);
    }
}

/// A bridge passes on what it is given, unchanged and in order: the console gets what
/// the client types and the client what the console writes, each until that direction
/// is over.
pub proof fn bytes_pass_unchanged(
    socket_path: Seq<char>,
    states: Seq<Bridge>,
    events: Seq<BridgeEvent>,
    actions: Seq<BridgeAction>,
)
    requires
        bridge_runs(socket_path, states, events, actions),
    ensures
        handed_to_console(actions) == typed(events),
        handed_to_client(actions) == output_of(events),
{
    lemma_bridge_runs(socket_path, states, events, actions);
}

/// Once a direction is over, nothing passes in it any more: nothing is written to the
/// console after a message was refused or the client's stream ended, and nothing to the
/// client after the console was closed or could not be read.
pub proof fn nothing_passes_where_it_is_over(
    socket_path: Seq<char>,
    states: Seq<Bridge>,
    events: Seq<BridgeEvent>,
    actions: Seq<BridgeAction>,
    k: int,
    later: int,
)
    requires
        bridge_runs(socket_path, states, events, actions),
        0 <= k < later < events.len(),
    ensures
        ends_typing(events[k]) ==> !states[later].to_console && actions[later] !is ToConsole,
        ends_showing(events[k]) ==> !states[later].to_client && actions[later] !is ToClient,
    decreases later,
{
    assert(bridge_next(states[k], socket_path, events[k], states[k + 1], actions[k]));
    if later > k + 1 {
        nothing_passes_where_it_is_over(socket_path, states, events, actions, k, later - 1);
        assert(bridge_next(
            states[later - 1],
            socket_path,
            events[later - 1],
            states[later],
            actions[later - 1],
        ));
    }
    assert(bridge_next(
        states[later],
        socket_path,
        events[later],
        states[later + 1],
        actions[later],
    ));
}

/// Nothing passes a closed bridge: once both directions are over, and so once the bridge
/// was closed, there is nothing left to do but to close it.
pub proof fn nothing_passes_after_the_close(
    socket_path: Seq<char>,
    states: Seq<Bridge>,
    events: Seq<BridgeEvent>,
    actions: Seq<BridgeAction>,
    k: int,
    later: int,
)
    requires
        bridge_runs(socket_path, states, events, actions),
        0 <= k < later < events.len(),
        actions[k] is Close || states[k + 1] == closed_bridge(),
    ensures
        actions[later] == BridgeAction::Close,
        states[later] == closed_bridge(),
    decreases later,
{
    assert(bridge_next(states[k], socket_path, events[k], states[k + 1], actions[k]));
    if later > k + 1 {
        nothing_passes_after_the_close(socket_path, states, events, actions, k, later - 1);
        assert(bridge_next(
            states[later - 1],
            socket_path,
            events[later - 1],
            states[later],
            actions[later - 1],
        ));
    }
    assert(bridge_next(
        states[later],
        socket_path,
        events[later],
        states[later + 1],
        actions[later],
    ));
}

/// The directions of a connected bridge end apart: the end of one leaves the other as it
/// was. A client that stops sending, or sends what is refused, is still handed what the
/// console writes; what is typed after the console was closed or could not be read is
/// still handed to it.
pub proof fn directions_end_apart(
    before: Bridge,
    socket_path: Seq<char>,
    event: BridgeEvent,
    after: Bridge,
    action: BridgeAction,
)
    requires
        bridge_next(before, socket_path, event, after, action),
        event !is NotConnected,
    ensures
        ends_typing(event) ==> !after.to_console && after.to_client == before.to_client,
        ends_showing(event) ==> !after.to_client && after.to_console == before.to_console,
        !ends_typing(event) && !ends_showing(event) ==> after == before,
        action is Close ==> after == closed_bridge(),
        after == closed_bridge() ==> action is Close || action is Fail,
{
}

} // verus!
