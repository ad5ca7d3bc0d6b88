//! The command bridge: an install-once slot holding the sender through which a
//! host hands commands to a running event loop.

use vstd::prelude::*;
use futures::channel::mpsc::UnboundedSender;
use libp2p::Multiaddr;
use vstd::string::StringSliceAdditionalSpecFns;
use crate::outside::{is_multiaddr, parse_multiaddr, parse_error_text};

verus! {

/// A unit of host-issued intent, passed by move into the event loop.
#[derive(Debug)]
pub enum Command {
    /// Open an outbound connection to the address.
    Dial(Multiaddr),
    /// Broadcast the payload on the node's topic.
    Publish(Vec<u8>),
}

/// Why a command could not be handed to the event loop.
#[derive(Clone, Copy, Debug, PartialEq, Eq, Structural)]
pub enum BridgeError {
    /// No bridge has been installed yet.
    NotReady,
    /// The event loop has ended and dropped its receiver.
    Closed,
}

/// Why a host-facing submission failed.
#[derive(Clone, Debug, PartialEq, Eq)]
pub enum SubmitError {
    /// The dial address is not a valid multiaddress; nothing was sent. Holds
    /// the parser's description of the fault.
    InvalidAddress(String),
    /// The command could not be handed to the event loop.
    Bridge(BridgeError),
}

/// Relies on futures' `UnboundedSender::unbounded_send`: it enqueues the
/// command unless the receiver is gone, reports which, and never panics.
#[verifier::external_body]
fn send_command(sender: &UnboundedSender<Command>, cmd: Command) -> (accepted: bool) {
    sender.unbounded_send(cmd).is_ok()
}

/// What a submission reports: `NotReady` when no bridge is installed;
/// otherwise `Ok` when the channel took the command, `Closed` when it did not.
pub open spec fn submit_result(installed: bool, accepted: bool) -> Result<(), BridgeError> {
    if !installed {
        Err(BridgeError::NotReady)
    } else if accepted {
        Ok(())
    } else {
        Err(BridgeError::Closed)
    }
}

/// A bridge outcome as a host-facing result.
pub open spec fn lifted(r: Result<(), BridgeError>) -> Result<(), SubmitError> {
    match r {
        Ok(()) => Ok(()),
        Err(e) => Err(SubmitError::Bridge(e)),
    }
}

/// What a submission reports once the sender has answered.
pub fn send_outcome(accepted: bool) -> (r: Result<(), BridgeError>)
    ensures
        r == submit_result(true, accepted),
{
    if accepted {
        Ok(())
    } else {
        Err(BridgeError::Closed)
    }
}

/// The slot after an install attempt: filled if it was empty, else unchanged.
pub open spec fn slot_after_install<S>(slot: Option<S>, sender: S) -> Option<S> {
    match slot {
        Some(first) => Some(first),
        None => Some(sender),
    }
}

/// Install-once register of the command sender.
pub struct CommandBridge {
    sender: Option<UnboundedSender<Command>>,
}

impl View for CommandBridge {
    type V = Option<UnboundedSender<Command>>;

    closed spec fn view(&self) -> Self::V {
        self.sender
    }
}

impl CommandBridge {
    /// A bridge with nothing installed.
    pub fn new() -> (r: CommandBridge)
        ensures
            r@ is None,
    {
        CommandBridge { sender: None }
    }

    /// Whether a sender has been installed.
    pub fn is_installed(&self) -> (r: bool)
        ensures
            r == self@ is Some,
    {
        self.sender.is_some()
    }

    /// Installs `sender` if the slot is empty. A second attempt leaves the
    /// first sender in place and hands the rejected one back.
    pub fn install(&mut self, sender: UnboundedSender<Command>) -> (r: Result<(), UnboundedSender<Command>>)
        ensures
            final(self)@ == slot_after_install(old(self)@, sender),
            old(self)@ is None ==> r is Ok,
            old(self)@ is Some ==> r == Err::<(), UnboundedSender<Command>>(sender),
    {
        if self.sender.is_some() {
            Err(sender)
        } else {
            self.sender = Some(sender);
            Ok(())
        }
    }

    /// Hands `cmd` to the event loop. Fails with `NotReady` exactly when no
    /// sender is installed; otherwise the channel decides between success and
    /// `Closed`.
    pub fn submit(&self, cmd: Command) -> (r: Result<(), BridgeError>)
        ensures
            self@ is None <==> r == Err::<(), BridgeError>(BridgeError::NotReady),
            self@ is Some ==> (r is Ok || r == Err::<(), BridgeError>(BridgeError::Closed)),
            exists|accepted: bool| r == #[trigger] submit_result(self@ is Some, accepted),
    {
        match &self.sender {
            None => {
                let r = Err(BridgeError::NotReady);
                assert(r == submit_result(false, false));
                r
            },
            Some(sender) => {
                let accepted = send_command(sender, cmd);
                let r = send_outcome(accepted);
                assert(r == submit_result(true, accepted));
                r
            },
        }
    }
}

/// The command that publishes `message`: its UTF-8 bytes, unchanged.
pub fn publish_command(message: &str) -> (c: Command)
    ensures
        c matches Command::Publish(data) && data@ == message.spec_bytes(),
{
    Command::Publish(message.as_bytes_vec())
}

/// Host call: parses `multiaddr` and submits a dial to the parsed address. A
/// malformed address never reaches the bridge and is reported as
/// `InvalidAddress`, with the parser's description.
pub fn connect_to_server(bridge: &CommandBridge, multiaddr: &str) -> (r: Result<(), SubmitError>)
    ensures
        !is_multiaddr(multiaddr@) <==> r matches Err(SubmitError::InvalidAddress(_)),
        is_multiaddr(multiaddr@) ==> exists|accepted: bool| r == lifted(#[trigger] submit_result(bridge@ is Some, accepted)),
        is_multiaddr(multiaddr@) && bridge@ is None ==> r == Err::<(), SubmitError>(
            SubmitError::Bridge(BridgeError::NotReady),
        ),
        is_multiaddr(multiaddr@) && bridge@ is Some ==> (r is Ok || r == Err::<(), SubmitError>(
            SubmitError::Bridge(BridgeError::Closed),
        )),
{
    match parse_multiaddr(multiaddr) {
        Err(e) => Err(SubmitError::InvalidAddress(parse_error_text(&e))),
        Ok(addr) => {
            let sent = bridge.submit(Command::Dial(addr));
            let r = match sent {
                Ok(()) => Ok(()),
                Err(e) => Err(SubmitError::Bridge(e)),
            };
            assert(r == lifted(sent));
            r
        },
    }
}

/// Host call: submits `publish_command(message)`, a publish of the message's
/// bytes, to the event loop.
pub fn send_message(bridge: &CommandBridge, message: &str) -> (r: Result<(), SubmitError>)
    ensures
        exists|accepted: bool| r == lifted(#[trigger] submit_result(bridge@ is Some, accepted)),
        bridge@ is None <==> r == Err::<(), SubmitError>(SubmitError::Bridge(BridgeError::NotReady)),
        bridge@ is Some ==> (r is Ok || r == Err::<(), SubmitError>(SubmitError::Bridge(BridgeError::Closed))),
{
    let sent = bridge.submit(publish_command(message));
    let r = match sent {
        Ok(()) => Ok(()),
        Err(e) => Err(SubmitError::Bridge(e)),
    };
    assert(r == lifted(sent));
    r
}

} // verus!
