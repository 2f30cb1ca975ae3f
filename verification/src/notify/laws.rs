//! What holds of audiences, decoding and dispatch, whatever the input.
use crate::notify::audience::{chat_audience, member_set, user_id_of};
use crate::notify::dispatch::{accounts_for, attempt_users, Attempt};
use crate::notify::json::{value_of_text, Json};
use crate::notify::listener::{reaction, reaction_to_text, step_owed, FeedEvent, Outcome, RawNotification, Step};
use crate::notify::event::AppEvent;
use crate::notify::notif::{decoded, Notification, NotifyError};
use crate::notify::payload::{ChatMessageCreated, ChatUpdated, Payload};
use crate::notify::schema::{fits_chat_updated, fits_message_created, fits_payload, ints_at};
use crate::notify::topic::{topic_name_round_trip, topic_named, Topic};
use vstd::prelude::*;

verus! {

/// The three operations of a chat change go by different names.
pub proof fn operations_differ()
    ensures
        "INSERT"@ != "UPDATE"@,
        "INSERT"@ != "DELETE"@,
        "UPDATE"@ != "DELETE"@,
{
    reveal_strlit("INSERT");
    reveal_strlit("UPDATE");
    reveal_strlit("DELETE");
    assert("INSERT"@[0] == 'I' && "UPDATE"@[0] == 'U' && "DELETE"@[0] == 'D');
}

/// An update of a chat that leaves the set of members as it was is
/// decoded as an addition and reaches nobody, whatever else about the chat
/// changed.
pub proof fn unchanged_membership_reaches_nobody(change: ChatUpdated)
    requires
        change.op@ == "UPDATE"@,
        change.old is Some,
        change.new is Some,
        member_set(change.old->0.members@) == member_set(change.new->0.members@),
    ensures
        decoded("chat_updated"@, Some(Payload::ChatUpdated(change))) == Ok::<
            (AppEvent, Set<u64>),
            NotifyError,
        >((AppEvent::AddToChat(change.new->0), Set::<u64>::empty())),
{
    operations_differ();
    topic_name_round_trip(Topic::ChatUpdated);
}

/// An update of a chat that alters the set of members is decoded as an
/// addition and reaches everybody who was a member before or is one after.
pub proof fn changed_membership_reaches_both_sides(change: ChatUpdated)
    requires
        change.op@ == "UPDATE"@,
        change.old is Some,
        change.new is Some,
        member_set(change.old->0.members@) != member_set(change.new->0.members@),
    ensures
        decoded("chat_updated"@, Some(Payload::ChatUpdated(change))) == Ok::<
            (AppEvent, Set<u64>),
            NotifyError,
        >(
            (
                AppEvent::AddToChat(change.new->0),
                member_set(change.old->0.members@).union(member_set(change.new->0.members@)),
            ),
        ),
{
    operations_differ();
    topic_name_round_trip(Topic::ChatUpdated);
}

/// A deletion of a chat, which carries the row before and none after, is
/// decoded as a removal and reaches the members of the deleted chat.
pub proof fn deletion_reaches_old_members(change: ChatUpdated)
    requires
        change.op@ == "DELETE"@,
        change.old is Some,
        change.new is None,
    ensures
        decoded("chat_updated"@, Some(Payload::ChatUpdated(change))) == Ok::<
            (AppEvent, Set<u64>),
            NotifyError,
        >((AppEvent::RemoveFromChat(change.old->0), member_set(change.old->0.members@))),
{
    operations_differ();
    topic_name_round_trip(Topic::ChatUpdated);
}

/// An insertion of a chat, which carries the row after and none before,
/// is decoded as a new chat and reaches the members of the new chat.
pub proof fn insertion_reaches_new_members(change: ChatUpdated)
    requires
        change.op@ == "INSERT"@,
        change.old is None,
        change.new is Some,
    ensures
        decoded("chat_updated"@, Some(Payload::ChatUpdated(change))) == Ok::<
            (AppEvent, Set<u64>),
            NotifyError,
        >((AppEvent::NewChat(change.new->0), member_set(change.new->0.members@))),
{
    operations_differ();
    topic_name_round_trip(Topic::ChatUpdated);
}

/// Whatever the operation, the audience of a chat change goes by the sides
/// that it carries: by the difference where both are there, by the one
/// that is there otherwise.
pub proof fn chat_audience_goes_by_the_sides(change: ChatUpdated)
    ensures
        change.old is Some && change.new is Some && member_set(change.old->0.members@) == member_set(
            change.new->0.members@,
        ) ==> Payload::ChatUpdated(change).audience() == Set::<u64>::empty(),
        change.old is Some && change.new is Some && member_set(change.old->0.members@) != member_set(
            change.new->0.members@,
        ) ==> Payload::ChatUpdated(change).audience() == member_set(change.old->0.members@).union(
            member_set(change.new->0.members@),
        ),
        change.old is Some && change.new is None ==> Payload::ChatUpdated(change).audience()
            == member_set(change.old->0.members@),
        change.old is None && change.new is Some ==> Payload::ChatUpdated(change).audience()
            == member_set(change.new->0.members@),
        change.old is None && change.new is None ==> Payload::ChatUpdated(change).audience()
            == Set::<u64>::empty(),
{
}

/// A new message is decoded as such, with the members that its payload
/// lists as the audience.
pub proof fn message_is_decoded_for_its_members(created: ChatMessageCreated)
    ensures
        decoded("chat_message_created"@, Some(Payload::ChatMessageCreated(created))) == Ok::<
            (AppEvent, Set<u64>),
            NotifyError,
        >((AppEvent::NewMessage(created.message), member_set(created.members@))),
{
    topic_name_round_trip(Topic::ChatMessageCreated);
}

/// A new message reaches exactly the users that its payload lists: each
/// listed member is in the audience, and each user in the audience is
/// listed. A member listed twice is in it once, as in any set.
pub proof fn message_reaches_listed_members(created: ChatMessageCreated)
    ensures
        forall|i: int|
            0 <= i < created.members@.len() ==> Payload::ChatMessageCreated(
                created,
            ).audience().contains(user_id_of(#[trigger] created.members@[i])),
        forall|u: u64|
            Payload::ChatMessageCreated(created).audience().contains(u) ==> exists|i: int|
                0 <= i < created.members@.len() && user_id_of(#[trigger] created.members@[i]) == u,
        Payload::ChatMessageCreated(created).audience().finite(),
{
    member_set_finite(created.members@);
}

/// The users named by a member list are finitely many, at most one for
/// each entry.
pub proof fn member_set_finite(members: Seq<i64>)
    ensures
        member_set(members).finite(),
        member_set(members).len() <= members.len(),
    decreases members.len(),
{
    if members.len() == 0 {
        assert(member_set(members) =~= Set::<u64>::empty());
    } else {
        let front = members.drop_last();
        let last = members.last();
        member_set_finite(front);
        assert forall|u: u64| #[trigger]
            member_set(members).contains(u) <==> member_set(front).insert(
                user_id_of(last),
            ).contains(u) by {
            if member_set(members).contains(u) {
                let i = choose|i: int| 0 <= i < members.len() && user_id_of(#[trigger] members[i]) == u;
                if i < front.len() {
                    assert(front[i] == members[i]);
                }
            }
            if member_set(front).contains(u) {
                let i = choose|i: int| 0 <= i < front.len() && user_id_of(#[trigger] front[i]) == u;
                assert(members[i] == front[i]);
            }
            if u == user_id_of(last) {
                assert(members[members.len() - 1] == last);
            }
        }
        assert(member_set(members) =~= member_set(front).insert(user_id_of(last)));
    }
}

/// On a topic that is subscribed to, no payload stops the listener: one
/// that is not JSON, or does not have the topic's shape, or describes a
/// record that cannot be used, costs that one notification.
pub proof fn bad_payload_does_not_halt(
    outcome: Outcome,
    name: Seq<char>,
    json: Option<Json>,
    connected: Set<u64>,
)
    requires
        topic_named(name) is Some,
        reaction(outcome, name, json, connected),
    ensures
        outcome.spec_continues(),
        json is None ==> outcome == Outcome::Dropped(NotifyError::MalformedPayload),
        json matches Some(value) && !fits_payload(topic_named(name)->0, value) ==> outcome
            == Outcome::Dropped(NotifyError::MalformedPayload),
{
}

/// On a topic that is subscribed to, no payload text stops the listener,
/// and one that is not JSON at all is dropped as malformed.
pub proof fn bad_text_does_not_halt(
    outcome: Outcome,
    name: Seq<char>,
    payload: Seq<char>,
    connected: Set<u64>,
)
    requires
        topic_named(name) is Some,
        reaction_to_text(outcome, name, payload, connected),
    ensures
        outcome.spec_continues(),
        value_of_text(payload) is None ==> outcome == Outcome::Dropped(NotifyError::MalformedPayload),
{
}

/// A notification on a name that denotes no topic stops the listener,
/// whatever its payload.
pub proof fn unknown_topic_halts(
    outcome: Outcome,
    name: Seq<char>,
    json: Option<Json>,
    connected: Set<u64>,
)
    requires
        topic_named(name) is None,
        reaction(outcome, name, json, connected),
    ensures
        outcome == Outcome::Halted(NotifyError::InvalidNotificationType),
{
}

/// A dispatch decides each member of the audience exactly once. A member
/// who is not connected is passed over, and every member who is connected
/// has the event offered to their channel all the same.
pub proof fn every_member_decided_once(
    attempts: Seq<Attempt>,
    audience: Set<u64>,
    connected: Set<u64>,
    user: u64,
)
    requires
        accounts_for(attempts, audience, connected),
        audience.contains(user),
    ensures
        exists|i: int|
            {
                &&& 0 <= i < attempts.len()
                &&& (#[trigger] attempts[i]).user_id == user
                &&& (attempts[i].delivery is NotConnected <==> !connected.contains(user))
                &&& forall|j: int| 0 <= j < attempts.len() && attempts[j].user_id == user ==> j == i
            },
{
    let users = attempt_users(attempts);
    assert(users.to_set().contains(user));
    assert(users.contains(user));
    let i = choose|i: int| 0 <= i < users.len() && users[i] == user;
    assert(attempts[i].user_id == user);
    assert forall|j: int| 0 <= j < attempts.len() && attempts[j].user_id == user implies j == i by {
        assert(users[j] == user);
    }
}

/// A dispatch offers the event to nobody outside the audience.
pub proof fn nobody_else_decided(
    attempts: Seq<Attempt>,
    audience: Set<u64>,
    connected: Set<u64>,
    i: int,
)
    requires
        accounts_for(attempts, audience, connected),
        0 <= i < attempts.len(),
    ensures
        audience.contains(attempts[i].user_id),
{
    let users = attempt_users(attempts);
    assert(users[i] == attempts[i].user_id);
    assert(users.contains(users[i]));
    assert(users.to_set().contains(users[i]));
}

/// An event with an empty audience is offered to nobody.
pub proof fn empty_audience_reaches_nobody(attempts: Seq<Attempt>, connected: Set<u64>)
    requires
        accounts_for(attempts, Set::<u64>::empty(), connected),
    ensures
        attempts.len() == 0,
{
    if attempts.len() > 0 {
        nobody_else_decided(attempts, Set::<u64>::empty(), connected, 0);
    }
}

/// The member list of the chat that stands under `key` in a chat change.
pub open spec fn members_at(json: Json, key: Seq<char>) -> Option<Seq<i64>> {
    match json.optional(key) {
        Some(chat) => ints_at(chat, "members"@),
        None => None,
    }
}

/// A new-message payload decodes exactly when it has the shape, and the
/// audience is then the set of the members that the payload lists,
/// whatever any chat says.
pub proof fn message_payload_names_its_audience(json: Json, r: Result<Notification, NotifyError>)
    requires
        Notification::decodes("chat_message_created"@, Some(json), r),
    ensures
        r is Ok <==> fits_message_created(json),
        r matches Ok(n) ==> {
            &&& *n.event is NewMessage
            &&& ints_at(json, "members"@) matches Some(members) && n.user_ids@ == member_set(members)
        },
{
    topic_name_round_trip(Topic::ChatMessageCreated);
}

/// The audience of a chat change that decodes goes by the member lists
/// that the payload carries under `old` and `new`, and by nothing else in
/// it.
pub proof fn chat_payload_names_its_audience(json: Json, r: Result<Notification, NotifyError>)
    requires
        Notification::decodes("chat_updated"@, Some(json), r),
    ensures
        r is Ok ==> fits_chat_updated(json),
        !fits_chat_updated(json) ==> r == Err::<Notification, NotifyError>(NotifyError::MalformedPayload),
        r matches Ok(n) ==> n.user_ids@ == chat_audience(
            members_at(json, "old"@),
            members_at(json, "new"@),
        ),
{
    topic_name_round_trip(Topic::ChatUpdated);
}

/// A notification on a topic that is subscribed to never stops the
/// listener, whatever its payload: the next one is still taken.
pub proof fn known_topic_never_stops(next: Step, raw: RawNotification, connected: Set<u64>)
    requires
        topic_named(raw.topic@) is Some,
        step_owed(next, FeedEvent::Arrived(raw), connected),
    ensures
        next is Continue,
        next matches Step::Continue(outcome) && !(outcome is Halted),
{
}

} // verus!
