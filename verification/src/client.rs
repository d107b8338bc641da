//! The session with an agent: one request, then exactly one response.
//!
//! A call goes through three values, each made from the one before:
//! a [`Client`], on which an operation is issued; a [`Sending`], while the
//! request is written; an [`Awaiting`], while the response is waited for.
//! The session comes back with the result of the call. An operation takes the
//! session by value, so no second call can be issued before the first has
//! ended.

use core::marker::PhantomData;
use vstd::prelude::*;
use crate::error::{AgentError, IoError};
use crate::proto::{
    AddIdentity, AddIdentityConstrained, AddSmartcardKeyConstrained, Extension, Identity,
    RemoveIdentity, Request, Response, SignRequest, SmartcardKey,
};
use crate::reply::{resolve, Received, Reply};

verus! {

/// A session with an agent over a channel of its own, with no call under way.
#[derive(Debug)]
pub struct Client<Stream> {
    adapter: Stream,
}

/// A session whose request is being written to the channel. `T` is the result
/// that the operation gives.
#[derive(Debug)]
pub struct Sending<Stream, T> {
    client: Client<Stream>,
    reply: PhantomData<T>,
}

/// A session whose request has been written and whose response is waited for.
/// `T` is the result that the operation gives.
#[derive(Debug)]
pub struct Awaiting<Stream, T> {
    client: Client<Stream>,
    reply: PhantomData<T>,
}

impl<Stream> Client<Stream> {
    /// The channel that the session owns.
    pub closed spec fn channel(self) -> Stream {
        self.adapter
    }

    /// Wraps a channel into a session. Nothing is read or written.
    pub fn new(socket: Stream) -> (client: Self)
        ensures
            client.channel() == socket,
    {
        Client { adapter: socket }
    }

    /// Ends the session and gives the channel back.
    pub fn into_inner(self) -> (socket: Stream)
        ensures
            socket == self.channel(),
    {
        self.adapter
    }

    /// Issues `message` for an operation whose result is a `T`.
    fn issue<T: Reply>(self, message: Request) -> (call: (Sending<Stream, T>, Request))
        ensures
            call.0.session() == self,
            call.1 == message,
    {
        (Sending { client: self, reply: PhantomData }, message)
    }

    /// Asks for the identities that the agent holds.
    pub fn request_identities(self) -> (call: (Sending<Stream, Vec<Identity>>, Request))
        ensures
            call.0.session() == self,
            call.1 == Request::RequestIdentities,
    {
        self.issue(Request::RequestIdentities)
    }

    /// Asks for a signature.
    pub fn sign(self, request: SignRequest) -> (call: (
        Sending<Stream, ssh_key::Signature>,
        Request,
    ))
        ensures
            call.0.session() == self,
            call.1 == Request::SignRequest(request),
    {
        self.issue(Request::SignRequest(request))
    }

    /// Asks the agent to add a key.
    pub fn add_identity(self, identity: AddIdentity) -> (call: (Sending<Stream, ()>, Request))
        ensures
            call.0.session() == self,
            call.1 == Request::AddIdentity(identity),
    {
        self.issue(Request::AddIdentity(identity))
    }

    /// Asks the agent to add a key with restrictions on its use.
    pub fn add_identity_constrained(self, identity: AddIdentityConstrained) -> (call: (
        Sending<Stream, ()>,
        Request,
    ))
        ensures
            call.0.session() == self,
            call.1 == Request::AddIdConstrained(identity),
    {
        self.issue(Request::AddIdConstrained(identity))
    }

    /// Asks the agent to remove a key.
    pub fn remove_identity(self, identity: RemoveIdentity) -> (call: (
        Sending<Stream, ()>,
        Request,
    ))
        ensures
            call.0.session() == self,
            call.1 == Request::RemoveIdentity(identity),
    {
        self.issue(Request::RemoveIdentity(identity))
    }

    /// Asks the agent to remove all keys.
    pub fn remove_all_identities(self) -> (call: (Sending<Stream, ()>, Request))
        ensures
            call.0.session() == self,
            call.1 == Request::RemoveAllIdentities,
    {
        self.issue(Request::RemoveAllIdentities)
    }

    /// Asks the agent to add a key held on a smartcard.
    pub fn add_smartcard_key(self, key: SmartcardKey) -> (call: (Sending<Stream, ()>, Request))
        ensures
            call.0.session() == self,
            call.1 == Request::AddSmartcardKey(key),
    {
        self.issue(Request::AddSmartcardKey(key))
    }

    /// Asks the agent to add a key held on a smartcard, with restrictions on
    /// its use.
    pub fn add_smartcard_key_constrained(self, key: AddSmartcardKeyConstrained) -> (call: (
        Sending<Stream, ()>,
        Request,
    ))
        ensures
            call.0.session() == self,
            call.1 == Request::AddSmartcardKeyConstrained(key),
    {
        self.issue(Request::AddSmartcardKeyConstrained(key))
    }

    /// Asks the agent to remove a key held on a smartcard.
    pub fn remove_smartcard_key(self, key: SmartcardKey) -> (call: (Sending<Stream, ()>, Request))
        ensures
            call.0.session() == self,
            call.1 == Request::RemoveSmartcardKey(key),
    {
        self.issue(Request::RemoveSmartcardKey(key))
    }

    /// Asks the agent to lock itself with a passphrase.
    pub fn lock(self, key: String) -> (call: (Sending<Stream, ()>, Request))
        ensures
            call.0.session() == self,
            call.1 == Request::Lock(key),
    {
        self.issue(Request::Lock(key))
    }

    /// Asks the agent to unlock itself with a passphrase.
    pub fn unlock(self, key: String) -> (call: (Sending<Stream, ()>, Request))
        ensures
            call.0.session() == self,
            call.1 == Request::Unlock(key),
    {
        self.issue(Request::Unlock(key))
    }

    /// Sends a vendor-defined request.
    pub fn extension(self, extension: Extension) -> (call: (
        Sending<Stream, Option<Extension>>,
        Request,
    ))
        ensures
            call.0.session() == self,
            call.1 == Request::Extension(extension),
    {
        self.issue(Request::Extension(extension))
    }

    /// Sends any request and takes the response as it comes.
    pub fn handle(self, message: Request) -> (call: (Sending<Stream, Response>, Request))
        ensures
            call.0.session() == self,
            call.1 == message,
    {
        self.issue(message)
    }
}

impl<Stream, T: Reply> Sending<Stream, T> {
    /// The session that the call was issued on.
    pub closed spec fn session(self) -> Client<Stream> {
        self.client
    }

    /// The channel, to write the request to.
    pub fn channel_mut(&mut self) -> (stream: &mut Stream)
        ensures
            *stream == old(self).session().channel(),
            final(self).session().channel() == *final(stream),
    {
        &mut self.client.adapter
    }

    /// Takes the outcome of writing the request.
    ///
    /// After a failure the call is over: the failure is its result, and no
    /// response is waited for.
    pub fn sent(self, written: Result<(), IoError>) -> (next: Result<
        Awaiting<Stream, T>,
        (Client<Stream>, AgentError),
    >)
        ensures
            written is Ok ==> (next matches Ok(awaiting) && awaiting.session() == self.session()),
            written matches Err(error) ==> next == Err::<
                Awaiting<Stream, T>,
                (Client<Stream>, AgentError),
            >((self.session(), AgentError::Io(error))),
    {
        match written {
            Ok(_) => Ok(Awaiting { client: self.client, reply: PhantomData }),
            Err(error) => Err((self.client, AgentError::Io(error))),
        }
    }
}

impl<Stream, T: Reply> Awaiting<Stream, T> {
    /// The session that the call was issued on.
    pub closed spec fn session(self) -> Client<Stream> {
        self.client
    }

    /// The channel, to read the response from.
    pub fn channel_mut(&mut self) -> (stream: &mut Stream)
        ensures
            *stream == old(self).session().channel(),
            final(self).session().channel() == *final(stream),
    {
        &mut self.client.adapter
    }

    /// Takes what the wait for the response brought and ends the call.
    ///
    /// The session comes back whatever the result. After a fatal error its
    /// channel is of no more use.
    pub fn received(self, received: Received) -> (end: (Client<Stream>, Result<T, AgentError>))
        ensures
            end.0 == self.session(),
            end.1 == resolve::<T>(received),
    {
        let result = match received {
            Received::Response(response) => T::from_response(response),
            Received::Closed => Err(AgentError::Disconnected),
            Received::Malformed => Err(AgentError::Protocol),
            Received::Failed(error) => Err(AgentError::Io(error)),
        };
        (self.client, result)
    }
}

} // verus!
