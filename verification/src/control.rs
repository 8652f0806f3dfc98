//! The pure logic of the device control service: one TCP command —
//! `status`, `on`, `off`, or anything else — applied to the shared
//! socket, producing one reply. The network loop around it reads a
//! command, calls [`handle_request`] under the socket's lock, and
//! writes the reply back.

use vstd::prelude::*;

use vstd::utf8::{decode_utf8, valid_utf8};

use crate::devices::{
    socket_state_label, socket_state_seq, SmartSocket, SocketState, SOCKET_ON_POWER,
};
use crate::text::{dec_seq, str_eq, trim, trim_spec, u64_string};

verus! {

/// The reply to `status`: the state tag and the power draw, read
/// together from one committed socket value.
pub open spec fn status_reply_seq(sock: SmartSocket) -> Seq<char> {
    socket_state_seq(sock.state) + ", Power: "@ + dec_seq(sock.power_consumption as nat)
}

/// One command applied to the socket: the socket afterwards and the
/// reply. Matching is case-sensitive on the trimmed text; `on` sets the
/// state and the fixed on-power together, `off` sets the state and zero
/// power together, and any other text changes nothing.
pub open spec fn apply_command_spec(sock: SmartSocket, cmd: Seq<char>) -> (SmartSocket, Seq<
    char,
>) {
    if cmd == "status"@ {
        (sock, status_reply_seq(sock))
    } else if cmd == "on"@ {
        (
            SmartSocket {
                state: SocketState::On,
                power_consumption: SOCKET_ON_POWER,
                ..sock
            },
            "Socket turned on"@,
        )
    } else if cmd == "off"@ {
        (SmartSocket { state: SocketState::Off, power_consumption: 0, ..sock }, "Socket turned off"@)
    } else {
        (sock, "Unknown command"@)
    }
}

/// Trims the command text and applies it to the socket, returning the
/// reply to send back on the same connection.
pub fn apply_command(socket: &mut SmartSocket, input: &str) -> (reply: String)
    ensures
        *final(socket) == apply_command_spec(*old(socket), trim_spec(input@)).0,
        reply@ == apply_command_spec(*old(socket), trim_spec(input@)).1,
{
    let cmd = trim(input);
    if str_eq(cmd, "status") {
        let mut reply = socket_state_label(&socket.state).to_owned();
        reply.append(", Power: ");
        let power = u64_string(socket.power_consumption);
        reply.append(power.as_str());
        proof {
            assert(reply@ =~= status_reply_seq(*old(socket)));
        }
        reply
    } else if str_eq(cmd, "on") {
        socket.state = SocketState::On;
        socket.power_consumption = SOCKET_ON_POWER;
        "Socket turned on".to_owned()
    } else if str_eq(cmd, "off") {
        socket.state = SocketState::Off;
        socket.power_consumption = 0;
        "Socket turned off".to_owned()
    } else {
        "Unknown command".to_owned()
    }
}

/// One request round over the raw received bytes: undecodable (non-text)
/// input is treated as an unknown command, never as an error; otherwise
/// the decoded text is trimmed and applied.
pub open spec fn handle_request_spec(sock: SmartSocket, raw: Seq<u8>) -> (SmartSocket, Seq<
    char,
>) {
    if valid_utf8(raw) {
        apply_command_spec(sock, trim_spec(decode_utf8(raw)))
    } else {
        (sock, "Unknown command"@)
    }
}

/// Relies on str::from_utf8: it returns Ok exactly when the bytes are
/// valid UTF-8, and then the string reads as their decoding.
#[verifier::external_body]
fn bytes_to_str(raw: &[u8]) -> (r: Option<&str>)
    ensures
        r is Some <==> valid_utf8(raw@),
        (r matches Some(s) ==> s@ == decode_utf8(raw@)),
{
    core::str::from_utf8(raw).ok()
}

/// Decodes, trims and applies one received command, returning the reply.
pub fn handle_request(socket: &mut SmartSocket, raw: &[u8]) -> (reply: String)
    ensures
        *final(socket) == handle_request_spec(*old(socket), raw@).0,
        reply@ == handle_request_spec(*old(socket), raw@).1,
{
    match bytes_to_str(raw) {
        Some(text) => apply_command(socket, text),
        None => "Unknown command".to_owned(),
    }
}

/// A socket whose power draw is attributable to its state: the pair
/// was written together by one `on` or one `off` command.
pub open spec fn power_consistent(sock: SmartSocket) -> bool {
    &&& (sock.state is On ==> sock.power_consumption == SOCKET_ON_POWER)
    &&& (sock.state is Off ==> sock.power_consumption == 0)
}

/// Law: commands write the state tag and the power value together or
/// not at all. Starting from a consistent socket, the socket after any
/// command is still consistent, so a reader serialized at command
/// granularity can never observe one command's state with another
/// command's power.
pub proof fn lemma_commands_never_tear(sock: SmartSocket, cmd: Seq<char>)
    requires
        power_consistent(sock),
    ensures
        power_consistent(apply_command_spec(sock, cmd).0),
{
}

/// Law: a `status` reply renders the pair the socket holds at that
/// moment; for a consistent socket it is exactly the `On` tag with the
/// fixed on-power, or the `Off` tag with zero — never a mix.
pub proof fn lemma_status_reply_untorn(sock: SmartSocket)
    requires
        power_consistent(sock),
    ensures
        sock.state is On ==> status_reply_seq(sock) == socket_state_seq(SocketState::On)
            + ", Power: "@ + dec_seq(SOCKET_ON_POWER as nat),
        sock.state is Off ==> status_reply_seq(sock) == socket_state_seq(SocketState::Off)
            + ", Power: "@ + dec_seq(0),
{
}

/// The socket after a whole sequence of commands, applied in order —
/// the total order the socket's lock serializes concurrent sessions
/// into, one complete command at a time.
pub open spec fn run_commands(sock: SmartSocket, cmds: Seq<Seq<char>>) -> SmartSocket
    decreases cmds.len(),
{
    if cmds.len() == 0 {
        sock
    } else {
        apply_command_spec(run_commands(sock, cmds.drop_last()), cmds.last()).0
    }
}

/// Law: in any serialization of sessions that issue only `on` and
/// `status`, once some `on` has completed the socket holds `On` with
/// the fixed on-power, so every later `status` — from any session —
/// observes exactly that pair, never one command's state with another
/// command's power.
pub proof fn lemma_on_sessions_observe_on(sock: SmartSocket, cmds: Seq<Seq<char>>)
    requires
        forall|i: int| 0 <= i < cmds.len() ==> cmds[i] == "on"@ || cmds[i] == "status"@,
        exists|i: int| 0 <= i < cmds.len() && cmds[i] == "on"@,
    ensures
        run_commands(sock, cmds).state is On,
        run_commands(sock, cmds).power_consumption == SOCKET_ON_POWER,
        apply_command_spec(run_commands(sock, cmds), "status"@).1 == socket_state_seq(
            SocketState::On,
        ) + ", Power: "@ + dec_seq(SOCKET_ON_POWER as nat),
    decreases cmds.len(),
{
    reveal_strlit("on");
    reveal_strlit("status");
    assert("on"@.len() != "status"@.len());
    if cmds.len() > 0 {
        if cmds.last() == "on"@ {
        } else {
            let i = choose|i: int| 0 <= i < cmds.len() && cmds[i] == "on"@;
            assert(cmds.drop_last()[i] == cmds[i]);
            lemma_on_sessions_observe_on(sock, cmds.drop_last());
        }
    }
}

/// Law: an `on` command leaves the socket reading `On` with the fixed
/// on-power, and a `status` issued on that state — with no state-changing
/// command in between — reports exactly that pair.
pub proof fn lemma_on_then_status(sock: SmartSocket)
    ensures
        apply_command_spec(sock, "on"@).0.state is On,
        apply_command_spec(sock, "on"@).0.power_consumption == SOCKET_ON_POWER,
        apply_command_spec(apply_command_spec(sock, "on"@).0, "status"@).1 == socket_state_seq(
            SocketState::On,
        ) + ", Power: "@ + dec_seq(SOCKET_ON_POWER as nat),
{
    reveal_strlit("status");
    reveal_strlit("on");
    assert("on"@.len() != "status"@.len());
}

} // verus!
