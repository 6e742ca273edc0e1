//! The registry: every live session with all of its sub-state, held in one
//! place so that a session appears and disappears as a whole.

use crate::communication::types::ActionDataView;
use crate::communication::types::CredentialsView;
use crate::communication::types::HOIActionData;
use crate::communication::types::HouseOfIoTCredentials;
use crate::state::channels::queue_add;
use crate::state::channels::queue_items;
use crate::state::channels::queue_new;
use crate::state::channels::queue_remove;
use crate::state::channels::queue_size;
use crate::state::channels::signal_cancel;
use futures_channel::mpsc::UnboundedSender;
use futures_channel::oneshot::Sender;
use queues::Queue;
use tokio_tungstenite::tungstenite::protocol::Message;
use vstd::prelude::*;

verus! {

/// One live session as the registry stores it.
struct Session {
    id: String,
    connection: UnboundedSender<Message>,
    credentials: HouseOfIoTCredentials,
    queue: Queue<HOIActionData>,
    in_progress: bool,
    cancel: Sender<()>,
}

/// The sub-state of one session.
pub struct SessionView {
    /// The handle through which frames reach the device.
    pub connection: UnboundedSender<Message>,
    /// The credentials the session was opened with.
    pub credentials: CredentialsView,
    /// The pending actions, oldest first.
    pub queue: Seq<ActionDataView>,
    /// Whether an action is being executed.
    pub in_progress: bool,
    /// The handle that stops the session's background tasks.
    pub cancel: Sender<()>,
}

/// The registry as a mathematical value: the live sessions by id, and every
/// id that was ever given to a session.
pub struct RegistryView {
    pub sessions: Map<Seq<char>, SessionView>,
    pub issued: Set<Seq<char>>,
}

impl RegistryView {
    /// The registry without any session.
    pub open spec fn empty() -> RegistryView {
        RegistryView { sessions: Map::empty(), issued: Set::empty() }
    }

    /// Every live session carries an id that counts as issued.
    pub open spec fn wf(self) -> bool {
        forall|id: Seq<char>| #[trigger] self.sessions.dom().contains(id) ==> self.issued.contains(id)
    }

    /// Whether `id` names a live session.
    pub open spec fn contains(self, id: Seq<char>) -> bool {
        self.sessions.dom().contains(id)
    }

    /// The connection handles, by session.
    pub open spec fn connections(self) -> Map<Seq<char>, UnboundedSender<Message>> {
        self.sessions.map_values(|s: SessionView| s.connection)
    }

    /// The credentials, by session.
    pub open spec fn credentials(self) -> Map<Seq<char>, CredentialsView> {
        self.sessions.map_values(|s: SessionView| s.credentials)
    }

    /// The pending actions, by session.
    pub open spec fn queues(self) -> Map<Seq<char>, Seq<ActionDataView>> {
        self.sessions.map_values(|s: SessionView| s.queue)
    }

    /// The in-flight flags, by session.
    pub open spec fn in_progress(self) -> Map<Seq<char>, bool> {
        self.sessions.map_values(|s: SessionView| s.in_progress)
    }

    /// The cancellation handles, by session.
    pub open spec fn cancels(self) -> Map<Seq<char>, Sender<()>> {
        self.sessions.map_values(|s: SessionView| s.cancel)
    }

    /// `id` is in all five sub-state maps.
    pub open spec fn fully_present(self, id: Seq<char>) -> bool {
        &&& self.connections().dom().contains(id)
        &&& self.credentials().dom().contains(id)
        &&& self.queues().dom().contains(id)
        &&& self.in_progress().dom().contains(id)
        &&& self.cancels().dom().contains(id)
    }

    /// `id` is in none of the five sub-state maps.
    pub open spec fn fully_absent(self, id: Seq<char>) -> bool {
        &&& !self.connections().dom().contains(id)
        &&& !self.credentials().dom().contains(id)
        &&& !self.queues().dom().contains(id)
        &&& !self.in_progress().dom().contains(id)
        &&& !self.cancels().dom().contains(id)
    }

    /// A new session under `id`: no pending action, nothing in flight.
    pub open spec fn register(
        self,
        id: Seq<char>,
        credentials: CredentialsView,
        connection: UnboundedSender<Message>,
        cancel: Sender<()>,
    ) -> RegistryView {
        RegistryView {
            sessions: self.sessions.insert(
                id,
                SessionView {
                    connection,
                    credentials,
                    queue: Seq::empty(),
                    in_progress: false,
                    cancel,
                },
            ),
            issued: self.issued.insert(id),
        }
    }

    /// The session under `id` is gone with all of its sub-state; its id stays
    /// issued.
    pub open spec fn remove(self, id: Seq<char>) -> RegistryView {
        RegistryView { sessions: self.sessions.remove(id), issued: self.issued }
    }

    /// `action` joins the back of the queue of `id`; nothing changes when
    /// there is no such session.
    pub open spec fn enqueue(self, id: Seq<char>, action: ActionDataView) -> RegistryView {
        if self.contains(id) {
            let s = self.sessions[id];
            RegistryView {
                sessions: self.sessions.insert(
                    id,
                    SessionView { queue: s.queue.push(action), ..s },
                ),
                issued: self.issued,
            }
        } else {
            self
        }
    }

    /// Whether an action may begin for `id`: the session is live and nothing
    /// is in flight.
    pub open spec fn may_begin(self, id: Seq<char>) -> bool {
        self.contains(id) && !self.sessions[id].in_progress
    }

    /// The in-flight flag of `id` set to `flag`; nothing changes when there
    /// is no such session.
    pub open spec fn with_flag(self, id: Seq<char>, flag: bool) -> RegistryView {
        if self.contains(id) {
            let s = self.sessions[id];
            RegistryView {
                sessions: self.sessions.insert(id, SessionView { in_progress: flag, ..s }),
                issued: self.issued,
            }
        } else {
            self
        }
    }

    /// The registry after an attempt to begin an action for `id`.
    pub open spec fn begin(self, id: Seq<char>) -> RegistryView {
        if self.may_begin(id) {
            self.with_flag(id, true)
        } else {
            self
        }
    }

    /// The registry after the action in flight for `id` has completed.
    pub open spec fn complete(self, id: Seq<char>) -> RegistryView {
        self.with_flag(id, false)
    }

    /// Whether `id` has an action waiting.
    pub open spec fn has_pending(self, id: Seq<char>) -> bool {
        self.contains(id) && self.sessions[id].queue.len() > 0
    }

    /// The oldest pending action of `id` taken off its queue; nothing changes
    /// when there is none.
    pub open spec fn dequeue(self, id: Seq<char>) -> RegistryView {
        if self.has_pending(id) {
            let s = self.sessions[id];
            RegistryView {
                sessions: self.sessions.insert(
                    id,
                    SessionView { queue: s.queue.drop_first(), ..s },
                ),
                issued: self.issued,
            }
        } else {
            self
        }
    }
}

impl RegistryView {
    /// Whether the dispatcher may hand out an action of `id`: one waits and
    /// none is in flight.
    pub open spec fn may_dispatch(self, id: Seq<char>) -> bool {
        self.has_pending(id) && self.may_begin(id)
    }

    /// The registry after the dispatcher looked at `id`: where it may
    /// dispatch, the session is busy and its oldest action has left the
    /// queue.
    pub open spec fn dispatch(self, id: Seq<char>) -> RegistryView {
        if self.may_dispatch(id) {
            self.begin(id).dequeue(id)
        } else {
            self
        }
    }
}

impl Session {
    spec fn view(&self) -> SessionView {
        SessionView {
            connection: self.connection,
            credentials: self.credentials@,
            queue: crate::communication::types::action_views(queue_items(self.queue)),
            in_progress: self.in_progress,
            cancel: self.cancel,
        }
    }
}

spec fn has_id(sessions: Seq<Session>, id: Seq<char>) -> bool {
    exists|i: int| 0 <= i < sessions.len() && #[trigger] sessions[i].id@ == id
}

spec fn index_of(sessions: Seq<Session>, id: Seq<char>) -> int {
    choose|i: int| 0 <= i < sessions.len() && #[trigger] sessions[i].id@ == id
}

spec fn distinct_ids(sessions: Seq<Session>) -> bool {
    forall|i: int, j: int|
        0 <= i < j < sessions.len() ==> #[trigger] sessions[i].id@ != #[trigger] sessions[j].id@
}

spec fn sessions_map(sessions: Seq<Session>) -> Map<Seq<char>, SessionView> {
    Map::new(
        |id: Seq<char>| has_id(sessions, id),
        |id: Seq<char>| sessions[index_of(sessions, id)]@,
    )
}

spec fn issued_set(issued: Seq<String>) -> Set<Seq<char>> {
    Set::new(|id: Seq<char>| exists|i: int| 0 <= i < issued.len() && #[trigger] issued[i]@ == id)
}

proof fn lemma_lookup(sessions: Seq<Session>, i: int)
    requires
        distinct_ids(sessions),
        0 <= i < sessions.len(),
    ensures
        has_id(sessions, sessions[i].id@),
        index_of(sessions, sessions[i].id@) == i,
        sessions_map(sessions).dom().contains(sessions[i].id@),
        sessions_map(sessions)[sessions[i].id@] == sessions[i]@,
{
    let id = sessions[i].id@;
    assert(has_id(sessions, id));
    let j = index_of(sessions, id);
    assert(0 <= j < sessions.len() && sessions[j].id@ == id);
    if j < i {
        assert(sessions[j].id@ != sessions[i].id@);
    } else if i < j {
        assert(sessions[i].id@ != sessions[j].id@);
    }
}

proof fn lemma_map_push(sessions: Seq<Session>, session: Session)
    requires
        distinct_ids(sessions),
        !has_id(sessions, session.id@),
    ensures
        distinct_ids(sessions.push(session)),
        sessions_map(sessions.push(session)) == sessions_map(sessions).insert(
            session.id@,
            session@,
        ),
{
    let after = sessions.push(session);
    assert forall|i: int, j: int| 0 <= i < j < after.len() implies #[trigger] after[i].id@
        != #[trigger] after[j].id@ by {
        if j == sessions.len() {
            assert(sessions[i].id@ == after[i].id@);
        } else {
            assert(sessions[i].id@ != sessions[j].id@);
        }
    }
    let target = sessions_map(sessions).insert(session.id@, session@);
    assert forall|id: Seq<char>| sessions_map(after).dom().contains(id) implies #[trigger] target.dom().contains(id)
        && sessions_map(after)[id] == target[id] by {
        let k = index_of(after, id);
        assert(0 <= k < after.len() && after[k].id@ == id);
        lemma_lookup(after, k);
        if k < sessions.len() {
            assert(sessions[k].id@ == id);
            lemma_lookup(sessions, k);
        }
    }
    assert forall|id: Seq<char>| target.dom().contains(id) implies #[trigger] sessions_map(
        after,
    ).dom().contains(id) by {
        if id == session.id@ {
            assert(after[sessions.len() as int].id@ == id);
        } else {
            let k = index_of(sessions, id);
            assert(0 <= k < sessions.len() && sessions[k].id@ == id);
            assert(after[k].id@ == id);
        }
    }
    assert(sessions_map(after) =~= target);
}

proof fn lemma_map_remove(sessions: Seq<Session>, i: int)
    requires
        distinct_ids(sessions),
        0 <= i < sessions.len(),
    ensures
        distinct_ids(sessions.remove(i)),
        sessions_map(sessions.remove(i)) == sessions_map(sessions).remove(sessions[i].id@),
{
    let after = sessions.remove(i);
    let gone = sessions[i].id@;
    assert forall|a: int, b: int| 0 <= a < b < after.len() implies #[trigger] after[a].id@
        != #[trigger] after[b].id@ by {
        let a0 = if a < i { a } else { a + 1 };
        let b0 = if b < i { b } else { b + 1 };
        assert(after[a] == sessions[a0] && after[b] == sessions[b0]);
        assert(sessions[a0].id@ != sessions[b0].id@);
    }
    let target = sessions_map(sessions).remove(gone);
    assert forall|id: Seq<char>| sessions_map(after).dom().contains(id) implies #[trigger] target.dom().contains(id)
        && sessions_map(after)[id] == target[id] by {
        let k = index_of(after, id);
        assert(0 <= k < after.len() && after[k].id@ == id);
        lemma_lookup(after, k);
        let k0 = if k < i { k } else { k + 1 };
        assert(after[k] == sessions[k0]);
        lemma_lookup(sessions, k0);
        if k0 < i {
            assert(sessions[k0].id@ != sessions[i].id@);
        } else {
            assert(sessions[i].id@ != sessions[k0].id@);
        }
    }
    assert forall|id: Seq<char>| target.dom().contains(id) implies #[trigger] sessions_map(
        after,
    ).dom().contains(id) by {
        let k = index_of(sessions, id);
        assert(0 <= k < sessions.len() && sessions[k].id@ == id);
        assert(k != i);
        let k1 = if k < i { k } else { k - 1 };
        assert(after[k1] == sessions[k]);
        assert(after[k1].id@ == id);
    }
    assert(sessions_map(after) =~= target);
}

proof fn lemma_map_update(sessions: Seq<Session>, i: int, session: Session)
    requires
        distinct_ids(sessions),
        0 <= i < sessions.len(),
        session.id@ == sessions[i].id@,
    ensures
        distinct_ids(sessions.update(i, session)),
        sessions_map(sessions.update(i, session)) == sessions_map(sessions).insert(
            session.id@,
            session@,
        ),
{
    let after = sessions.update(i, session);
    assert forall|a: int, b: int| 0 <= a < b < after.len() implies #[trigger] after[a].id@
        != #[trigger] after[b].id@ by {
        assert(after[a].id@ == sessions[a].id@);
        assert(after[b].id@ == sessions[b].id@);
        assert(sessions[a].id@ != sessions[b].id@);
    }
    let target = sessions_map(sessions).insert(session.id@, session@);
    assert forall|id: Seq<char>| sessions_map(after).dom().contains(id) implies #[trigger] target.dom().contains(id)
        && sessions_map(after)[id] == target[id] by {
        let k = index_of(after, id);
        assert(0 <= k < after.len() && after[k].id@ == id);
        lemma_lookup(after, k);
        assert(sessions[k].id@ == id);
        lemma_lookup(sessions, k);
    }
    assert forall|id: Seq<char>| target.dom().contains(id) implies #[trigger] sessions_map(
        after,
    ).dom().contains(id) by {
        if id == session.id@ {
            assert(after[i].id@ == id);
        } else {
            let k = index_of(sessions, id);
            assert(0 <= k < sessions.len() && sessions[k].id@ == id);
            assert(after[k].id@ == id);
        }
    }
    assert(sessions_map(after) =~= target);
}

proof fn lemma_absent(sessions: Seq<Session>, id: Seq<char>)
    requires
        forall|i: int| 0 <= i < sessions.len() ==> #[trigger] sessions[i].id@ != id,
    ensures
        !sessions_map(sessions).dom().contains(id),
{
}

proof fn lemma_issue(issued: Seq<String>, id: String)
    ensures
        issued_set(issued.push(id)) == issued_set(issued).insert(id@),
{
    let after = issued.push(id);
    assert forall|x: Seq<char>| issued_set(after).contains(x) implies #[trigger] issued_set(
        issued,
    ).insert(id@).contains(x) by {
        let k = choose|k: int| 0 <= k < after.len() && #[trigger] after[k]@ == x;
        if k < issued.len() {
            assert(issued[k]@ == x);
        }
    }
    assert forall|x: Seq<char>| issued_set(issued).insert(id@).contains(x) implies #[trigger] issued_set(
        after,
    ).contains(x) by {
        if x == id@ {
            assert(after[issued.len() as int]@ == x);
        } else {
            let k = choose|k: int| 0 <= k < issued.len() && #[trigger] issued[k]@ == x;
            assert(after[k]@ == x);
        }
    }
    assert(issued_set(after) =~= issued_set(issued).insert(id@));
}

proof fn lemma_issued_covers_sessions(sessions: Seq<Session>, issued: Seq<String>)
    requires
        forall|i: int|
            0 <= i < sessions.len() ==> issued_set(issued).contains(#[trigger] sessions[i].id@),
    ensures
        issued_set(issued).union(sessions_map(sessions).dom()) == issued_set(issued),
{
    assert forall|id: Seq<char>| #[trigger]
        sessions_map(sessions).dom().contains(id) implies issued_set(issued).contains(id) by {
        let k = index_of(sessions, id);
        assert(0 <= k < sessions.len() && sessions[k].id@ == id);
    }
    assert(issued_set(issued).union(sessions_map(sessions).dom()) =~= issued_set(issued));
}

/// The text of `count` zeros.
pub open spec fn zeros(count: nat) -> Seq<char> {
    Seq::new(count, |i: int| '0')
}

/// Whether `id` is `candidate` with `count` zeros appended, every shorter
/// such text having been issued. With `id` itself never issued, `count` is
/// then the least number of zeros that will do.
pub open spec fn extends_by(
    issued: Set<Seq<char>>,
    candidate: Seq<char>,
    id: Seq<char>,
    count: nat,
) -> bool {
    &&& id == candidate + zeros(count)
    &&& forall|j: nat| j < count ==> issued.contains(candidate + #[trigger] zeros(j))
}

/// The length of the longest text in `issued`.
spec fn longest(issued: Seq<String>) -> nat
    decreases issued.len(),
{
    if issued.len() == 0 {
        0
    } else {
        let rest = longest(issued.drop_last());
        let last = issued.last()@.len();
        if last > rest {
            last
        } else {
            rest
        }
    }
}

proof fn lemma_longest(issued: Seq<String>, i: int)
    requires
        0 <= i < issued.len(),
    ensures
        issued[i]@.len() <= longest(issued),
    decreases issued.len(),
{
    if i < issued.len() - 1 {
        lemma_longest(issued.drop_last(), i);
    }
}

/// `Uuid::new_v4` in its hyphenated text form, which is 36 characters long.
/// The value is random, so nothing more is claimed of it.
#[verifier::external_body]
fn mint_session_id() -> (id: String)
    ensures
        id@.len() == 36,
{
    uuid::Uuid::new_v4().to_string()
}

/// The shared store of all live sessions.
pub struct MainState {
    /// The live sessions; no two of them share an id.
    sessions: Vec<Session>,
    /// Every id that was ever given to a session, live or removed.
    issued: Vec<String>,
}

impl View for MainState {
    type V = RegistryView;

    closed spec fn view(&self) -> RegistryView {
        RegistryView {
            sessions: sessions_map(self.sessions@),
            issued: issued_set(self.issued@).union(sessions_map(self.sessions@).dom()),
        }
    }
}

impl MainState {
    #[verifier::type_invariant]
    spec fn inv(self) -> bool {
        &&& distinct_ids(self.sessions@)
        &&& forall|i: int|
            0 <= i < self.sessions@.len() ==> issued_set(self.issued@).contains(
                #[trigger] self.sessions@[i].id@,
            )
    }

    /// Every live session of a registry carries an id that counts as issued.
    pub proof fn lemma_wf(&self)
        ensures
            self@.wf(),
    {
    }

    /// A registry without sessions, in which no id has been issued.
    pub fn new() -> (state: Self)
        ensures
            state@ == RegistryView::empty(),
    {
        let state = MainState { sessions: Vec::new(), issued: Vec::new() };
        assert(state@.sessions =~= Map::empty());
        assert(state@.issued =~= Set::empty());
        state
    }

    fn find(&self, id: &String) -> (found: Option<usize>)
        ensures
            match found {
                Some(i) => i < self.sessions@.len() && self.sessions@[i as int].id@ == id@,
                None => forall|i: int|
                    0 <= i < self.sessions@.len() ==> #[trigger] self.sessions@[i].id@ != id@,
            },
    {
        let mut i: usize = 0;
        while i < self.sessions.len()
            invariant
                i <= self.sessions@.len(),
                forall|k: int| 0 <= k < i ==> #[trigger] self.sessions@[k].id@ != id@,
            decreases self.sessions@.len() - i,
        {
            if self.sessions[i].id == *id {
                return Some(i);
            }
            i += 1;
        }
        None
    }

    /// Moves the sessions out, leaving none behind.
    fn take_sessions(&mut self) -> (taken: Vec<Session>)
        ensures
            taken@ == old(self).sessions@,
            final(self).sessions@.len() == 0,
            final(self).issued@ == old(self).issued@,
    {
        let mut taken: Vec<Session> = Vec::new();
        core::mem::swap(&mut self.sessions, &mut taken);
        taken
    }

    /// Moves `sessions` back in.
    fn put_sessions(&mut self, sessions: Vec<Session>)
        requires
            distinct_ids(sessions@),
            forall|i: int|
                0 <= i < sessions@.len() ==> issued_set(old(self).issued@).contains(
                    #[trigger] sessions@[i].id@,
                ),
        ensures
            final(self).sessions@ == sessions@,
            final(self).issued@ == old(self).issued@,
    {
        let mut sessions = sessions;
        core::mem::swap(&mut self.sessions, &mut sessions);
    }

    /// Records `id` as issued. The sessions step aside while the list of
    /// issued ids is out, so that no session is ever held without its id
    /// being on that list.
    fn record_issued(&mut self, id: String)
        ensures
            final(self).sessions@ == old(self).sessions@,
            final(self).issued@ == old(self).issued@.push(id),
    {
        proof {
            use_type_invariant(&*self);
            lemma_issue(self.issued@, id);
        }
        let mut issued: Vec<String> = Vec::new();
        let mut sessions: Vec<Session> = Vec::new();
        core::mem::swap(&mut self.sessions, &mut sessions);
        core::mem::swap(&mut self.issued, &mut issued);
        issued.push(id);
        core::mem::swap(&mut self.issued, &mut issued);
        core::mem::swap(&mut self.sessions, &mut sessions);
    }

    /// Whether `id` was ever given to a session of this registry.
    pub fn was_issued(&self, id: &String) -> (seen: bool)
        ensures
            seen == self@.issued.contains(id@),
    {
        proof {
            use_type_invariant(self);
            lemma_issued_covers_sessions(self.sessions@, self.issued@);
        }
        let mut i: usize = 0;
        while i < self.issued.len()
            invariant
                i <= self.issued@.len(),
                forall|k: int| 0 <= k < i ==> #[trigger] self.issued@[k]@ != id@,
            decreases self.issued@.len() - i,
        {
            if self.issued[i] == *id {
                return true;
            }
            i += 1;
        }
        false
    }

    /// Installs a session under `id` with all of its sub-state at once,
    /// provided that `id` was never issued before. Otherwise nothing changes
    /// and the answer is `false`.
    pub fn register_with_id(
        &mut self,
        id: String,
        credentials: HouseOfIoTCredentials,
        connection: UnboundedSender<Message>,
        cancel: Sender<()>,
    ) -> (registered: bool)
        ensures
            registered == !old(self)@.issued.contains(id@),
            registered ==> final(self)@ == old(self)@.register(
                id@,
                credentials@,
                connection,
                cancel,
            ),
            registered ==> final(self)@.fully_present(id@),
            !registered ==> final(self)@ == old(self)@,
    {
        proof {
            use_type_invariant(&*self);
            lemma_issued_covers_sessions(self.sessions@, self.issued@);
        }
        if self.was_issued(&id) {
            return false;
        }
        let ghost before = self.sessions@;
        let ghost issued_before = self.issued@;
        let session = Session {
            id: id.clone(),
            connection,
            credentials,
            queue: queue_new(),
            in_progress: false,
            cancel,
        };
        proof {
            assert(session@.queue =~= Seq::empty());
            assert forall|i: int| 0 <= i < before.len() implies #[trigger] before[i].id@
                != id@ by {
                assert(issued_set(issued_before).contains(before[i].id@));
            }
            lemma_absent(before, id@);
            lemma_map_push(before, session);
            lemma_issue(issued_before, id);
        }
        self.record_issued(id);
        let mut sessions = self.take_sessions();
        sessions.push(session);
        self.put_sessions(sessions);
        proof {
            lemma_issued_covers_sessions(self.sessions@, self.issued@);
        }
        true
    }

    /// An id that this registry never issued, made from `candidate` by
    /// appending zeros: as few as will do, and none where `candidate`
    /// itself was never issued.
    pub fn unused_id(&self, candidate: String) -> (id: String)
        ensures
            !self@.issued.contains(id@),
            exists|count: nat| extends_by(self@.issued, candidate@, id@, count),
            !self@.issued.contains(candidate@) ==> id@ == candidate@,
    {
        let ghost start = candidate@;
        let ghost mut count: nat = 0;
        let mut id = candidate;
        proof {
            assert(start + zeros(0) =~= start);
        }
        let mut seen = self.was_issued(&id);
        while seen
            invariant
                seen == self@.issued.contains(id@),
                id@ == start + zeros(count),
                forall|j: nat| j < count ==> self@.issued.contains(start + #[trigger] zeros(j)),
            decreases longest(self.issued@) + 1 - id@.len(),
        {
            proof {
                use_type_invariant(self);
                lemma_issued_covers_sessions(self.sessions@, self.issued@);
                let k = choose|k: int|
                    0 <= k < self.issued@.len() && #[trigger] self.issued@[k]@ == id@;
                lemma_longest(self.issued@, k);
                reveal_strlit("0");
                assert("0"@ =~= seq!['0']);
                assert(start + zeros(count) + seq!['0'] =~= start + zeros(count + 1));
            }
            id.append("0");
            proof {
                count = count + 1;
            }
            seen = self.was_issued(&id);
        }
        proof {
            assert(extends_by(self@.issued, start, id@, count));
            if !self@.issued.contains(start) {
                assert(start + zeros(0) =~= start);
                if count > 0 {
                    assert(self@.issued.contains(start + zeros(0)));
                }
            }
        }
        id
    }

    /// Mints a session id that this registry never issued: the text of a
    /// new random UUID, extended as [`MainState::unused_id`] does should it
    /// be a used one.
    pub fn fresh_session_id(&self) -> (id: String)
        ensures
            id@.len() >= 36,
            !self@.issued.contains(id@),
            !self@.contains(id@),
    {
        let minted = mint_session_id();
        let id = self.unused_id(minted);
        proof {
            self.lemma_wf();
        }
        id
    }

    /// Mints a session id and installs a session under it with all of its
    /// sub-state at once. The id is one that this registry never issued
    /// before: the minted text, extended as [`MainState::unused_id`] does
    /// should it be a used one.
    pub fn register(
        &mut self,
        credentials: HouseOfIoTCredentials,
        connection: UnboundedSender<Message>,
        cancel: Sender<()>,
    ) -> (id: String)
        ensures
            id@.len() >= 36,
            !old(self)@.issued.contains(id@),
            !old(self)@.contains(id@),
            final(self)@ == old(self)@.register(id@, credentials@, connection, cancel),
            final(self)@.fully_present(id@),
    {
        let id = self.fresh_session_id();
        let copy = id.clone();
        let registered = self.register_with_id(id, credentials, connection, cancel);
        assert(registered);
        copy
    }

    /// The handle through which frames reach the device of session `id`.
    pub fn lookup_handle(&self, id: &String) -> (handle: Option<&UnboundedSender<Message>>)
        ensures
            handle is Some == self@.contains(id@),
            handle matches Some(h) ==> *h == self@.sessions[id@].connection,
    {
        proof {
            use_type_invariant(self);
        }
        match self.find(id) {
            Some(i) => {
                proof {
                    lemma_lookup(self.sessions@, i as int);
                }
                Some(&self.sessions[i].connection)
            },
            None => None,
        }
    }

    /// The credentials session `id` was opened with.
    pub fn credentials_of(&self, id: &String) -> (credentials: Option<&HouseOfIoTCredentials>)
        ensures
            credentials is Some == self@.contains(id@),
            credentials matches Some(c) ==> c@ == self@.sessions[id@].credentials,
    {
        proof {
            use_type_invariant(self);
        }
        match self.find(id) {
            Some(i) => {
                proof {
                    lemma_lookup(self.sessions@, i as int);
                }
                Some(&self.sessions[i].credentials)
            },
            None => None,
        }
    }

    /// Appends `action` to the queue of session `id`. Without such a session
    /// the action is dropped and nothing changes.
    pub fn enqueue_action(&mut self, id: &String, action: HOIActionData)
        ensures
            final(self)@ == old(self)@.enqueue(id@, action@),
    {
        proof {
            use_type_invariant(&*self);
            lemma_issued_covers_sessions(self.sessions@, self.issued@);
        }
        match self.find(id) {
            Some(i) => {
                let ghost before = self.sessions@;
                proof {
                    lemma_lookup(before, i as int);
                }
                let mut sessions = self.take_sessions();
                queue_add(&mut sessions[i].queue, action);
                proof {
                    let after = sessions@;
                    assert(after =~= before.update(i as int, after[i as int]));
                    assert(after[i as int]@.queue =~= before[i as int]@.queue.push(action@));
                    lemma_map_update(before, i as int, after[i as int]);
                }
                self.put_sessions(sessions);
                proof {
                    lemma_issued_covers_sessions(self.sessions@, self.issued@);
                }
            },
            None => {},
        }
    }

    /// Begins an action for session `id` if none is in flight: the answer is
    /// `true` and the session is marked as busy. With an action in flight, or
    /// without such a session, the answer is `false` and nothing changes.
    pub fn try_begin_action(&mut self, id: &String) -> (begun: bool)
        ensures
            begun == old(self)@.may_begin(id@),
            final(self)@ == old(self)@.begin(id@),
            begun ==> !final(self)@.may_begin(id@),
    {
        proof {
            use_type_invariant(&*self);
            lemma_issued_covers_sessions(self.sessions@, self.issued@);
        }
        match self.find(id) {
            Some(i) => {
                let ghost before = self.sessions@;
                proof {
                    lemma_lookup(before, i as int);
                }
                if self.sessions[i].in_progress {
                    return false;
                }
                let mut sessions = self.take_sessions();
                sessions[i].in_progress = true;
                proof {
                    let after = sessions@;
                    assert(after =~= before.update(i as int, after[i as int]));
                    lemma_map_update(before, i as int, after[i as int]);
                }
                self.put_sessions(sessions);
                proof {
                    lemma_issued_covers_sessions(self.sessions@, self.issued@);
                }
                true
            },
            None => false,
        }
    }

    /// Marks the action in flight for session `id` as done. Without such a
    /// session nothing changes.
    pub fn complete_action(&mut self, id: &String)
        ensures
            final(self)@ == old(self)@.complete(id@),
            final(self)@.contains(id@) ==> final(self)@.may_begin(id@),
    {
        proof {
            use_type_invariant(&*self);
            lemma_issued_covers_sessions(self.sessions@, self.issued@);
        }
        match self.find(id) {
            Some(i) => {
                let ghost before = self.sessions@;
                proof {
                    lemma_lookup(before, i as int);
                }
                let mut sessions = self.take_sessions();
                sessions[i].in_progress = false;
                proof {
                    let after = sessions@;
                    assert(after =~= before.update(i as int, after[i as int]));
                    lemma_map_update(before, i as int, after[i as int]);
                }
                self.put_sessions(sessions);
                proof {
                    lemma_issued_covers_sessions(self.sessions@, self.issued@);
                }
            },
            None => {},
        }
    }

    /// Whether an action is in flight for session `id`.
    pub fn is_action_in_progress(&self, id: &String) -> (busy: bool)
        ensures
            busy == (self@.contains(id@) && self@.sessions[id@].in_progress),
    {
        proof {
            use_type_invariant(self);
        }
        match self.find(id) {
            Some(i) => {
                proof {
                    lemma_lookup(self.sessions@, i as int);
                }
                self.sessions[i].in_progress
            },
            None => false,
        }
    }

    /// How many actions wait in the queue of session `id`; zero without such
    /// a session.
    pub fn pending_actions(&self, id: &String) -> (count: usize)
        ensures
            self@.contains(id@) ==> count == self@.sessions[id@].queue.len(),
            !self@.contains(id@) ==> count == 0,
    {
        proof {
            use_type_invariant(self);
        }
        match self.find(id) {
            Some(i) => {
                proof {
                    lemma_lookup(self.sessions@, i as int);
                }
                queue_size(&self.sessions[i].queue)
            },
            None => 0,
        }
    }

    /// Takes the oldest pending action of session `id` off its queue. Without
    /// such a session, or with an empty queue, nothing changes and the
    /// answer is `None`.
    pub fn dequeue_action(&mut self, id: &String) -> (action: Option<HOIActionData>)
        ensures
            action is Some == old(self)@.has_pending(id@),
            action matches Some(a) ==> a@ == old(self)@.sessions[id@].queue[0],
            final(self)@ == old(self)@.dequeue(id@),
    {
        proof {
            use_type_invariant(&*self);
            lemma_issued_covers_sessions(self.sessions@, self.issued@);
        }
        match self.find(id) {
            Some(i) => {
                let ghost before = self.sessions@;
                proof {
                    lemma_lookup(before, i as int);
                }
                let mut sessions = self.take_sessions();
                let action = queue_remove(&mut sessions[i].queue);
                proof {
                    let after = sessions@;
                    assert(after =~= before.update(i as int, after[i as int]));
                    lemma_map_update(before, i as int, after[i as int]);
                    if action is Some {
                        assert(after[i as int]@.queue =~= before[i as int]@.queue.drop_first());
                    } else {
                        assert(sessions_map(after) =~= sessions_map(before));
                    }
                }
                self.put_sessions(sessions);
                proof {
                    lemma_issued_covers_sessions(self.sessions@, self.issued@);
                }
                action
            },
            None => None,
        }
    }

    /// Deletes session `id` with all of its sub-state in one step and signals
    /// its cancellation handle. Without such a session nothing changes and
    /// the answer is `false`.
    pub fn remove(&mut self, id: &String) -> (removed: bool)
        ensures
            removed == old(self)@.contains(id@),
            final(self)@ == old(self)@.remove(id@),
            !removed ==> final(self)@ == old(self)@,
            final(self)@.fully_absent(id@),
    {
        proof {
            use_type_invariant(&*self);
            lemma_issued_covers_sessions(self.sessions@, self.issued@);
        }
        match self.find(id) {
            Some(i) => {
                proof {
                    lemma_lookup(self.sessions@, i as int);
                    lemma_map_remove(self.sessions@, i as int);
                }
                let mut sessions = self.take_sessions();
                let session = sessions.remove(i);
                self.put_sessions(sessions);
                let _ = signal_cancel(session.cancel);
                proof {
                    lemma_issued_covers_sessions(self.sessions@, self.issued@);
                }
                true
            },
            None => {
                proof {
                    lemma_absent(self.sessions@, id@);
                    assert(self@.sessions.remove(id@) =~= self@.sessions);
                }
                false
            },
        }
    }

    /// Whether `id` names a live session.
    pub fn contains(&self, id: &String) -> (live: bool)
        ensures
            live == self@.contains(id@),
    {
        proof {
            use_type_invariant(self);
        }
        match self.find(id) {
            Some(i) => {
                proof {
                    lemma_lookup(self.sessions@, i as int);
                }
                true
            },
            None => false,
        }
    }
}

} // verus!
