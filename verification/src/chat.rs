//! Presence manager and message log.
//!
//! `ChatState` models the two tables of the chat server: a user table keyed
//! by identity and an append-only message log. The four entry points
//! (connect, disconnect, set a name, send a message) each correspond to one
//! atomic transaction of the hosting store; the store itself and the
//! transport that triggers the entry points live outside this crate.

use std::collections::HashMap;
use vstd::prelude::*;
use crate::validate::{ValidationError, name_validity, message_validity};

verus! {

broadcast use vstd::std_specs::hash::group_hash_axioms;

/// One distinct client identity ever seen. Created on first connection and
/// never deleted; exactly one record exists per identity.
pub struct User {
    /// Opaque unique identifier, stable across reconnects. Primary key.
    pub identity: u64,
    /// Display name; absent until explicitly set.
    pub name: Option<String>,
    /// Presence flag.
    pub online: bool,
}

/// One sent chat message; immutable once created. `sender` is a logical
/// reference to a user identity and may dangle without being an error.
pub struct Message {
    /// Identity of the author.
    pub sender: u64,
    /// Server-assigned timestamp at insertion, in microseconds.
    pub sent: u64,
    /// Message body, 1 to 1000 characters.
    pub text: String,
}

/// Why an entry point failed.
#[derive(Clone, Copy, Debug, PartialEq, Eq, Structural)]
pub enum ChatError {
    /// The supplied name or message text was rejected.
    Validation(ValidationError),
    /// The identity has no corresponding user record.
    UnknownUser,
}

impl ChatError {
    /// The failure text of a name-setting attempt, as returned to the
    /// transport layer.
    pub fn set_name_text(&self) -> (r: String)
        ensures
            match *self {
                ChatError::Validation(ValidationError::Empty) => r@ == "Name cannot be empty"@,
                ChatError::Validation(ValidationError::TooLong) => r@ == "Name is too long"@,
                ChatError::Validation(ValidationError::ContainsNewline) => r@
                    == "Name cannot contain newlines"@,
                ChatError::UnknownUser => r@ == "Cannot set name for unknown user"@,
            },
    {
        match *self {
            ChatError::Validation(e) => e.name_text(),
            ChatError::UnknownUser => "Cannot set name for unknown user".to_owned(),
        }
    }

    /// The failure text of a message-sending attempt, as returned to the
    /// transport layer.
    pub fn send_message_text(&self) -> (r: String)
        ensures
            match *self {
                ChatError::Validation(ValidationError::Empty) => r@ == "Message cannot be empty"@,
                ChatError::Validation(ValidationError::TooLong) => r@ == "Message is too long"@,
                ChatError::Validation(ValidationError::ContainsNewline) => r@
                    == "Message cannot contain newlines"@,
                ChatError::UnknownUser => r@ == "Cannot send message for unknown user"@,
            },
    {
        match *self {
            ChatError::Validation(e) => e.message_text(),
            ChatError::UnknownUser => "Cannot send message for unknown user".to_owned(),
        }
    }
}

/// The user row after a connection: a returning user keeps identity and
/// name and comes online; a first-time user starts online with no name.
pub open spec fn spec_connect_row(identity: u64, prior: Option<User>) -> User {
    match prior {
        Some(p) => User { identity: p.identity, name: p.name, online: true },
        None => User { identity: identity, name: None, online: true },
    }
}

/// The user table after a connection of `identity`.
pub open spec fn spec_connect(users: Map<u64, User>, identity: u64) -> Map<u64, User> {
    if users.contains_key(identity) {
        users.insert(identity, spec_connect_row(identity, Some(users[identity])))
    } else {
        users.insert(identity, spec_connect_row(identity, None))
    }
}

/// The user table after a disconnection of `identity`: a present user goes
/// offline with all other fields unchanged; an absent one is a no-op.
pub open spec fn spec_disconnect(users: Map<u64, User>, identity: u64) -> Map<u64, User> {
    if users.contains_key(identity) {
        users.insert(
            identity,
            (User {
                identity: users[identity].identity,
                name: users[identity].name,
                online: false,
            }),
        )
    } else {
        users
    }
}

/// The outcome of setting the name of `identity` to `name`: a validation
/// failure or an unknown identity is an error, otherwise success.
pub open spec fn spec_set_name_result(
    users: Map<u64, User>,
    identity: u64,
    name: Seq<char>,
) -> Result<(), ChatError> {
    match name_validity(name) {
        Err(e) => Err(ChatError::Validation(e)),
        Ok(_) => if users.contains_key(identity) {
            Ok(())
        } else {
            Err(ChatError::UnknownUser)
        },
    }
}

/// The user table after setting the name of `identity` to `name`: updated
/// only on success, with `online` and `identity` unchanged.
pub open spec fn spec_set_name(users: Map<u64, User>, identity: u64, name: String) -> Map<
    u64,
    User,
> {
    if spec_set_name_result(users, identity, name@) is Ok {
        users.insert(
            identity,
            (User {
                identity: users[identity].identity,
                name: Some(name),
                online: users[identity].online,
            }),
        )
    } else {
        users
    }
}

/// The server's shared state: the user table and the message log.
pub struct ChatState {
    users: HashMap<u64, User>,
    messages: Vec<Message>,
}

impl ChatState {
    /// The user table, as a map from identity to user record.
    pub closed spec fn users_view(self) -> Map<u64, User> {
        self.users@
    }

    /// The message log, in insertion order.
    pub closed spec fn messages_view(self) -> Seq<Message> {
        self.messages@
    }

    /// Every user record sits under its own identity, so there is exactly
    /// one record per identity.
    pub closed spec fn wf(self) -> bool {
        forall|k: u64|
            #[trigger] self.users@.dom().contains(k) ==> self.users@[k].identity == k
    }

    /// A fresh server state: no users, no messages.
    pub fn new() -> (s: Self)
        ensures
            s.wf(),
            s.users_view() == Map::<u64, User>::empty(),
            s.messages_view() == Seq::<Message>::empty(),
    {
        ChatState { users: HashMap::new(), messages: Vec::new() }
    }

    /// A client session established: brings `identity` online, creating its
    /// record on first connection. Always succeeds; the message log is
    /// untouched.
    pub fn client_connected(&mut self, identity: u64)
        requires
            old(self).wf(),
        ensures
            final(self).wf(),
            final(self).users_view() == spec_connect(old(self).users_view(), identity),
            final(self).messages_view() == old(self).messages_view(),
    {
        let prior = self.users.remove(&identity);
        let row = connect_row(identity, prior);
        self.users.insert(identity, row);
        proof {
            assert(final(self).users_view() =~= spec_connect(old(self).users_view(), identity));
        }
    }

    /// A client session ended: marks `identity` offline if it is known.
    /// An unknown identity is tolerated as a no-op; the caller may record
    /// the anomaly, but no error is raised and no record is created.
    pub fn identity_disconnected(&mut self, identity: u64)
        requires
            old(self).wf(),
        ensures
            final(self).wf(),
            final(self).users_view() == spec_disconnect(old(self).users_view(), identity),
            final(self).messages_view() == old(self).messages_view(),
    {
        match self.users.remove(&identity) {
            Some(user) => {
                let row = disconnect_row(user);
                self.users.insert(identity, row);
            },
            None => {},
        }
        proof {
            assert(final(self).users_view() =~= spec_disconnect(old(self).users_view(), identity));
        }
    }

    /// Sets the display name of `identity` to `name`. Fails with the
    /// validation verdict on a rejected name and with `UnknownUser` on an
    /// identity that has no record; on failure the state is unchanged.
    pub fn set_name(&mut self, identity: u64, name: String) -> (r: Result<(), ChatError>)
        requires
            old(self).wf(),
        ensures
            final(self).wf(),
            r == spec_set_name_result(old(self).users_view(), identity, name@),
            final(self).users_view() == spec_set_name(old(self).users_view(), identity, name),
            final(self).messages_view() == old(self).messages_view(),
    {
        let name = match crate::validate::validate_name(name) {
            Ok(accepted) => accepted,
            Err(e) => {
                return Err(ChatError::Validation(e));
            },
        };
        match self.users.remove(&identity) {
            Some(user) => {
                let row = set_name_row(user, name);
                self.users.insert(identity, row);
                proof {
                    assert(final(self).users_view() =~= spec_set_name(
                        old(self).users_view(),
                        identity,
                        name,
                    ));
                }
                Ok(())
            },
            None => {
                proof {
                    assert(final(self).users_view() =~= old(self).users_view());
                }
                Err(ChatError::UnknownUser)
            },
        }
    }

    /// Appends one message from `sender` with the server-assigned timestamp
    /// `sent`. Fails with the validation verdict on a rejected body, leaving
    /// the log unchanged; once validation passes it always succeeds, and the
    /// user table is never touched.
    pub fn send_message(&mut self, sender: u64, sent: u64, text: String) -> (r: Result<
        (),
        ChatError,
    >)
        requires
            old(self).wf(),
        ensures
            final(self).wf(),
            final(self).users_view() == old(self).users_view(),
            match message_validity(text@) {
                Err(e) => r == Err::<(), ChatError>(ChatError::Validation(e))
                    && final(self).messages_view() == old(self).messages_view(),
                Ok(_) => r == Ok::<(), ChatError>(()) && final(self).messages_view() == old(
                    self,
                ).messages_view().push(Message { sender: sender, sent: sent, text: text }),
            },
    {
        let text = match crate::validate::validate_message(text) {
            Ok(accepted) => accepted,
            Err(e) => {
                return Err(ChatError::Validation(e));
            },
        };
        self.messages.push(new_message(sender, sent, text));
        Ok(())
    }

    /// Looks up the user record of `identity`, if any.
    pub fn find_user(&self, identity: u64) -> (r: Option<&User>)
        ensures
            match r {
                Some(u) => self.users_view().contains_key(identity)
                    && *u == self.users_view()[identity],
                None => !self.users_view().contains_key(identity),
            },
    {
        self.users.get(&identity)
    }

    /// How many distinct identities have ever been seen.
    pub fn user_count(&self) -> (n: usize)
        ensures
            n == self.users_view().len(),
    {
        self.users.len()
    }

    /// How many messages have been sent.
    pub fn message_count(&self) -> (n: usize)
        ensures
            n == self.messages_view().len(),
    {
        self.messages.len()
    }

    /// The `i`th message in insertion order, if it exists.
    pub fn get_message(&self, i: usize) -> (r: Option<&Message>)
        ensures
            match r {
                Some(m) => i < self.messages_view().len() && *m == self.messages_view()[i as int],
                None => i >= self.messages_view().len(),
            },
    {
        if i < self.messages.len() {
            Some(&self.messages[i])
        } else {
            None
        }
    }
}

/// The user row to write back when `identity` connects, given the prior row
/// if one exists: a returning user keeps name and identity and comes online;
/// a new user starts online with no name.
pub fn connect_row(identity: u64, prior: Option<User>) -> (u: User)
    ensures
        u == spec_connect_row(identity, prior),
{
    match prior {
        Some(p) => User { identity: p.identity, name: p.name, online: true },
        None => User { identity, name: None, online: true },
    }
}

/// The user row to write back when its client disconnects: offline, with
/// identity and name unchanged.
pub fn disconnect_row(user: User) -> (u: User)
    ensures
        u == (User { identity: user.identity, name: user.name, online: false }),
{
    User { identity: user.identity, name: user.name, online: false }
}

/// The user row to write back when its client sets a (validated) name:
/// only the name changes.
pub fn set_name_row(user: User, name: String) -> (u: User)
    ensures
        u == (User { identity: user.identity, name: Some(name), online: user.online }),
{
    User { identity: user.identity, name: Some(name), online: user.online }
}

/// The message row to append for a (validated) body `text` sent by `sender`
/// at server time `sent`.
pub fn new_message(sender: u64, sent: u64, text: String) -> (m: Message)
    ensures
        m == (Message { sender: sender, sent: sent, text: text }),
{
    Message { sender, sent, text }
}

/// Law: connecting an identity never seen before creates exactly one user
/// record — online, with no name set — and touches no other record.
pub proof fn lemma_connect_new_user(users: Map<u64, User>, identity: u64)
    requires
        users.dom().finite(),
        !users.contains_key(identity),
    ensures
        spec_connect(users, identity).contains_key(identity),
        spec_connect(users, identity)[identity] == (User {
            identity: identity,
            name: None,
            online: true,
        }),
        spec_connect(users, identity).len() == users.len() + 1,
        forall|k: u64|
            k != identity ==> #[trigger] spec_connect(users, identity).contains_key(k)
                == users.contains_key(k),
        forall|k: u64|
            k != identity && users.contains_key(k) ==> #[trigger] spec_connect(users, identity)[k]
                == users[k],
{
}

/// Law: connecting an identity already present preserves its name and its
/// identity and sets it online, whatever its prior presence; no record is
/// created or removed and no other record changes.
pub proof fn lemma_connect_returning_user(users: Map<u64, User>, identity: u64)
    requires
        users.dom().finite(),
        users.contains_key(identity),
    ensures
        spec_connect(users, identity).contains_key(identity),
        spec_connect(users, identity)[identity].name == users[identity].name,
        spec_connect(users, identity)[identity].identity == users[identity].identity,
        spec_connect(users, identity)[identity].online,
        spec_connect(users, identity).dom() == users.dom(),
        spec_connect(users, identity).len() == users.len(),
        forall|k: u64|
            k != identity && users.contains_key(k) ==> #[trigger] spec_connect(users, identity)[k]
                == users[k],
{
    assert(spec_connect(users, identity).dom() =~= users.dom());
}

/// Law: disconnecting an identity that is present sets it offline and
/// preserves its name and its identity; no record is created or removed and
/// no other record changes.
pub proof fn lemma_disconnect_present(users: Map<u64, User>, identity: u64)
    requires
        users.dom().finite(),
        users.contains_key(identity),
    ensures
        spec_disconnect(users, identity).contains_key(identity),
        spec_disconnect(users, identity)[identity].name == users[identity].name,
        spec_disconnect(users, identity)[identity].identity == users[identity].identity,
        !spec_disconnect(users, identity)[identity].online,
        spec_disconnect(users, identity).dom() == users.dom(),
        spec_disconnect(users, identity).len() == users.len(),
        forall|k: u64|
            k != identity && users.contains_key(k) ==> #[trigger] spec_disconnect(
                users,
                identity,
            )[k] == users[k],
{
    assert(spec_disconnect(users, identity).dom() =~= users.dom());
}

/// Law: disconnecting an identity that is absent is a no-op — in
/// particular, no record is created.
pub proof fn lemma_disconnect_absent(users: Map<u64, User>, identity: u64)
    requires
        !users.contains_key(identity),
    ensures
        spec_disconnect(users, identity) == users,
{
}

/// Law: setting an acceptable name for an identity that is present
/// succeeds and updates exactly that record's name, preserving its identity
/// and presence; no record is created or removed and no other record
/// changes.
pub proof fn lemma_set_name_present(users: Map<u64, User>, identity: u64, name: String)
    requires
        users.dom().finite(),
        users.contains_key(identity),
        crate::validate::valid_name(name@),
    ensures
        spec_set_name_result(users, identity, name@) == Ok::<(), ChatError>(()),
        spec_set_name(users, identity, name).contains_key(identity),
        spec_set_name(users, identity, name)[identity].name == Some(name),
        spec_set_name(users, identity, name)[identity].identity == users[identity].identity,
        spec_set_name(users, identity, name)[identity].online == users[identity].online,
        spec_set_name(users, identity, name).dom() == users.dom(),
        forall|k: u64|
            k != identity && users.contains_key(k) ==> #[trigger] spec_set_name(
                users,
                identity,
                name,
            )[k] == users[k],
{
    assert(spec_set_name(users, identity, name).dom() =~= users.dom());
}

/// Law: setting an acceptable name for an identity that is absent fails
/// with `UnknownUser` and leaves the user table unchanged — in particular,
/// no record is created.
pub proof fn lemma_set_name_absent(users: Map<u64, User>, identity: u64, name: String)
    requires
        !users.contains_key(identity),
        crate::validate::valid_name(name@),
    ensures
        spec_set_name_result(users, identity, name@) == Err::<(), ChatError>(
            ChatError::UnknownUser,
        ),
        spec_set_name(users, identity, name) == users,
{
}

/// Law: setting a rejected name fails with that name's validation verdict
/// and leaves the user table unchanged, whether or not the identity is
/// present.
pub proof fn lemma_set_name_invalid(users: Map<u64, User>, identity: u64, name: String)
    requires
        !crate::validate::valid_name(name@),
    ensures
        spec_set_name_result(users, identity, name@) == Err::<(), ChatError>(
            ChatError::Validation(name_validity(name@)->Err_0),
        ),
        spec_set_name(users, identity, name) == users,
{
}

} // verus!
