//! The identity store: user records in the order in which they came, found
//! by identifier or by email, listed page by page.
//!
//! A method that changes the store takes it by `&mut`, so a writer has the
//! store to itself from its check to its insertion, and readers share it.
//! A record enters the store once, at the end, and is never changed there.

use crate::error::{DatabaseError, RepositoryError, RepositoryErrorView};
use crate::text::same_text;
use crate::user::{fresh_id, new_user, now_micros, user_views, User, UserView};
use vstd::prelude::*;
use vstd::relations::injective_on;
use vstd::seq_lib::seq_to_set_is_finite;
use vstd::set_lib::{lemma_int_range, lemma_len_subset, lemma_map_size, set_int_range};

verus! {

/// No two records share an identifier.
pub open spec fn ids_distinct(users: Seq<UserView>) -> bool {
    forall|i: int, j: int| 0 <= i < j < users.len() ==> users[i].id != users[j].id
}

/// No two records share an email.
pub open spec fn emails_distinct(users: Seq<UserView>) -> bool {
    forall|i: int, j: int| 0 <= i < j < users.len() ==> users[i].email != users[j].email
}

/// Some record has this email.
pub open spec fn has_email(users: Seq<UserView>, email: Seq<char>) -> bool {
    exists|i: int| 0 <= i < users.len() && (#[trigger] users[i]).email == email
}

/// Position of the first record with this identifier; the length if none has it.
pub open spec fn id_position(users: Seq<UserView>, id: u128) -> int
    decreases users.len(),
{
    if users.len() == 0 {
        0
    } else if users[0].id == id {
        0
    } else {
        1 + id_position(users.drop_first(), id)
    }
}

/// Position of the first record with this email; the length if none has it.
pub open spec fn email_position(users: Seq<UserView>, email: Seq<char>) -> int
    decreases users.len(),
{
    if users.len() == 0 {
        0
    } else if users[0].email == email {
        0
    } else {
        1 + email_position(users.drop_first(), email)
    }
}

/// The first record with this identifier.
pub open spec fn by_id(users: Seq<UserView>, id: u128) -> Option<UserView> {
    if id_position(users, id) < users.len() {
        Some(users[id_position(users, id)])
    } else {
        None
    }
}

/// The first record with this email.
pub open spec fn by_email(users: Seq<UserView>, email: Seq<char>) -> Option<UserView> {
    if email_position(users, email) < users.len() {
        Some(users[email_position(users, email)])
    } else {
        None
    }
}

/// No record has this identifier.
pub open spec fn id_unused(users: Seq<UserView>, id: u128) -> bool {
    forall|i: int| 0 <= i < users.len() ==> (#[trigger] users[i]).id != id
}

/// No two records share an identifier, and no two share an email.
pub open spec fn records_distinct(users: Seq<UserView>) -> bool {
    ids_distinct(users) && emails_distinct(users)
}

/// Whether a record can be added: neither its email nor its identifier is
/// taken.
pub open spec fn create_succeeds(users: Seq<UserView>, record: UserView) -> bool {
    !has_email(users, record.email) && id_unused(users, record.id)
}

/// What a create does to the records: it puts the record at the end where
/// it can be added, and nothing else.
pub open spec fn after_create(users: Seq<UserView>, record: UserView) -> Seq<UserView> {
    if create_succeeds(users, record) {
        users.push(record)
    } else {
        users
    }
}

/// The records after a create for each of `more` in turn.
pub open spec fn after_creates(users: Seq<UserView>, more: Seq<UserView>) -> Seq<UserView>
    decreases more.len(),
{
    if more.len() == 0 {
        users
    } else {
        after_create(after_creates(users, more.drop_last()), more.last())
    }
}

/// The message of the error for an identifier that is already in use.
pub open spec fn identifier_in_use() -> Seq<char> {
    "User identifier already in use"@
}

/// The identifier `steps` after `start`, going round from the largest to 0.
pub open spec fn id_after(start: u128, steps: nat) -> u128 {
    if start + steps > u128::MAX {
        (start + steps - u128::MAX - 1) as u128
    } else {
        (start + steps) as u128
    }
}

/// The number of steps from `start` to the first identifier that no record
/// has, counting from `from`.
pub open spec fn steps_to_unused(users: Seq<UserView>, start: u128, from: nat) -> nat
    decreases users.len() + 1 - from,
{
    if from > users.len() || id_unused(users, id_after(start, from)) {
        from
    } else {
        steps_to_unused(users, start, from + 1)
    }
}

/// The first identifier, from `start` on, that no record has.
pub open spec fn first_unused_from(users: Seq<UserView>, start: u128) -> u128 {
    id_after(start, steps_to_unused(users, start, 0))
}

/// What a create is given: the email and the digest it is asked for, and the
/// identifier and the time that were drawn for it.
pub struct Draft {
    pub drawn: u128,
    pub now: i64,
    pub email: Seq<char>,
    pub password_hash: Seq<char>,
}

/// The record that a create makes: under the first identifier from the one
/// drawn on that no record has.
pub open spec fn drafted(users: Seq<UserView>, draft: Draft) -> UserView {
    new_user(first_unused_from(users, draft.drawn), draft.now, draft.email, draft.password_hash)
}

/// The records after a create: as they were where the email is taken, else
/// with the new record at the end.
pub open spec fn after_draft(users: Seq<UserView>, draft: Draft) -> Seq<UserView> {
    if has_email(users, draft.email) {
        users
    } else {
        users.push(drafted(users, draft))
    }
}

/// The records after one create for each of `drafts`, in turn.
pub open spec fn after_drafts(users: Seq<UserView>, drafts: Seq<Draft>) -> Seq<UserView>
    decreases drafts.len(),
{
    if drafts.len() == 0 {
        users
    } else {
        after_draft(after_drafts(users, drafts.drop_last()), drafts.last())
    }
}

/// Where a page starts: `(page - 1) * limit` records into the list.
pub open spec fn page_offset(page: u32, limit: u32) -> int {
    (page - 1) * limit
}

/// Where a page ends: `limit` records after its start, or at the end of the
/// list if that comes first.
pub open spec fn page_end(total: int, page: u32, limit: u32) -> int {
    if page_offset(page, limit) + limit < total {
        page_offset(page, limit) + limit
    } else {
        total
    }
}

/// The records of a page. Pages count from 1; page 0 and every page that
/// starts at or after the end of the list are empty.
pub open spec fn page_of(users: Seq<UserView>, page: u32, limit: u32) -> Seq<UserView> {
    if page == 0 || page_offset(page, limit) >= users.len() {
        Seq::empty()
    } else {
        users.subrange(page_offset(page, limit), page_end(users.len() as int, page, limit))
    }
}

/// The value of an optional record.
pub open spec fn optional_user_view(user: Option<User>) -> Option<UserView> {
    match user {
        Some(u) => Some(u@),
        None => None,
    }
}

/// The first position with an identifier is in range, holds it, and nothing
/// before it does.
pub proof fn lemma_id_position(users: Seq<UserView>, id: u128)
    ensures
        0 <= id_position(users, id) <= users.len(),
        id_position(users, id) < users.len() ==> users[id_position(users, id)].id == id,
        forall|j: int| 0 <= j < id_position(users, id) ==> (#[trigger] users[j]).id != id,
        id_unused(users, id) <==> id_position(users, id) == users.len(),
    decreases users.len(),
{
    if users.len() > 0 && users[0].id != id {
        let rest = users.drop_first();
        lemma_id_position(rest, id);
        assert forall|j: int| 0 <= j < id_position(users, id) implies (#[trigger] users[j]).id
            != id by {
            if j > 0 {
                assert(users[j] == rest[j - 1]);
            }
        }
    }
}

/// The first position with an email is in range, holds it, and nothing
/// before it does.
pub proof fn lemma_email_position(users: Seq<UserView>, email: Seq<char>)
    ensures
        0 <= email_position(users, email) <= users.len(),
        email_position(users, email) < users.len() ==> users[email_position(users, email)].email
            == email,
        forall|j: int| 0 <= j < email_position(users, email) ==> (#[trigger] users[j]).email != email,
        has_email(users, email) <==> email_position(users, email) < users.len(),
    decreases users.len(),
{
    if users.len() > 0 && users[0].email != email {
        let rest = users.drop_first();
        lemma_email_position(rest, email);
        assert forall|j: int| 0 <= j < email_position(users, email) implies (
        #[trigger] users[j]).email != email by {
            if j > 0 {
                assert(users[j] == rest[j - 1]);
            }
        }
        if has_email(users, email) {
            let i = choose|i: int| 0 <= i < users.len() && (#[trigger] users[i]).email == email;
            assert(rest[i - 1] == users[i]);
            assert(has_email(rest, email));
        }
        if email_position(users, email) < users.len() {
            assert(users[email_position(users, email)] == rest[email_position(rest, email)]);
        }
    } else if users.len() > 0 {
        assert(users[0].email == email);
    }
}

/// A record that can be added keeps identifiers and emails apart.
pub proof fn lemma_push_keeps_distinct(users: Seq<UserView>, record: UserView)
    requires
        records_distinct(users),
        create_succeeds(users, record),
    ensures
        records_distinct(users.push(record)),
{
    let after = users.push(record);
    assert forall|i: int, j: int| 0 <= i < j < after.len() implies after[i].id != after[j].id by {
        if j == users.len() {
            assert(users[i].id != record.id);
        }
    }
    assert forall|i: int, j: int| 0 <= i < j < after.len() implies after[i].email
        != after[j].email by {
        if j == users.len() {
            assert(users[i].email != record.email);
        }
    }
}

/// Among an identifier and as many that follow it as there are records,
/// one is not in use.
pub proof fn lemma_some_id_unused(users: Seq<UserView>, start: u128)
    requires
        users.len() <= u128::MAX,
    ensures
        exists|k: nat| k <= users.len() && id_unused(users, #[trigger] id_after(start, k)),
{
    if forall|k: nat| k <= users.len() ==> !id_unused(users, #[trigger] id_after(start, k)) {
        let n = users.len() as int;
        let steps = set_int_range(0, n + 1);
        lemma_int_range(0, n + 1);
        let at = |k: int| id_after(start, k as nat);
        let tried = steps.map(at);
        assert(injective_on(at, steps)) by {
            assert forall|a: int, b: int|
                steps.contains(a) && steps.contains(b) && #[trigger] at(a) == #[trigger] at(
                    b,
                ) implies a == b by {
                assert(at(a) == id_after(start, a as nat));
                assert(at(b) == id_after(start, b as nat));
            }
        }
        lemma_map_size(steps, tried, at);
        let ids = Seq::new(users.len(), |i: int| users[i].id);
        let used = ids.to_set();
        ids.lemma_cardinality_of_set();
        seq_to_set_is_finite(ids);
        assert(tried.subset_of(used)) by {
            assert forall|id: u128| tried.contains(id) implies used.contains(id) by {
                let k = choose|k: int| steps.contains(k) && id == at(k);
                assert(id == id_after(start, k as nat));
                assert(!id_unused(users, id_after(start, k as nat)));
                let i = choose|i: int| 0 <= i < users.len() && (#[trigger] users[i]).id == id;
                assert(ids[i] == id);
                assert(ids.contains(id));
            }
        }
        lemma_len_subset(tried, used);
        assert(false);
    }
}

/// Counting on from `from` stops at the first identifier that is not in use,
/// and every identifier passed on the way is in use.
pub proof fn lemma_steps_to_unused(users: Seq<UserView>, start: u128, from: nat)
    ensures
        from <= steps_to_unused(users, start, from),
        steps_to_unused(users, start, from) <= users.len() ==> id_unused(
            users,
            id_after(start, steps_to_unused(users, start, from)),
        ),
        forall|k: nat|
            from <= k < steps_to_unused(users, start, from) ==> !id_unused(
                users,
                #[trigger] id_after(start, k),
            ),
    decreases users.len() + 1 - from,
{
    if !(from > users.len() || id_unused(users, id_after(start, from))) {
        lemma_steps_to_unused(users, start, from + 1);
    }
}

/// The first unused identifier from `start` on is found within as many
/// steps as there are records, and no record has it.
pub proof fn lemma_first_unused_from(users: Seq<UserView>, start: u128)
    requires
        users.len() <= u128::MAX,
    ensures
        steps_to_unused(users, start, 0) <= users.len(),
        id_unused(users, first_unused_from(users, start)),
        id_unused(users, start) ==> first_unused_from(users, start) == start,
{
    lemma_some_id_unused(users, start);
    lemma_steps_to_unused(users, start, 0);
    let k = choose|k: nat| k <= users.len() && id_unused(users, #[trigger] id_after(start, k));
    if steps_to_unused(users, start, 0) > users.len() {
        assert(!id_unused(users, id_after(start, k)));
    }
}

/// The identity store.
#[derive(Debug)]
pub struct InMemoryUserRepository {
    users: Vec<User>,
}

impl View for InMemoryUserRepository {
    type V = Seq<UserView>;

    closed spec fn view(&self) -> Seq<UserView> {
        user_views(self.users@)
    }
}

impl InMemoryUserRepository {
    /// The store is in order: no two records share an identifier, and no
    /// two share an email.
    pub open spec fn wf(&self) -> bool {
        records_distinct(self@)
    }

    /// An empty store.
    pub fn new() -> (store: Self)
        ensures
            store@ == Seq::<UserView>::empty(),
            store.wf(),
    {
        let store = InMemoryUserRepository { users: Vec::new() };
        assert(store@ =~= Seq::<UserView>::empty());
        store
    }

    /// A store into which each of `users` was inserted in turn. A record
    /// whose email or identifier was taken by an earlier one is left out.
    pub fn new_with_users(users: Vec<User>) -> (store: Self)
        ensures
            store@ == after_creates(Seq::<UserView>::empty(), user_views(users@)),
            store.wf(),
    {
        let mut store = InMemoryUserRepository::new();
        let ghost all = user_views(users@);
        let mut i: usize = 0;
        assert(all.take(0) =~= Seq::<UserView>::empty());
        while i < users.len()
            invariant
                0 <= i <= users@.len(),
                all == user_views(users@),
                store.wf(),
                store@ == after_creates(Seq::<UserView>::empty(), all.take(i as int)),
            decreases users@.len() - i,
        {
            proof {
                assert(all.take(i + 1).drop_last() =~= all.take(i as int));
                assert(all.take(i + 1).last() == users@[i as int]@);
            }
            let _ = store.insert(&users[i]);
            i += 1;
        }
        assert(all.take(all.len() as int) =~= all);
        store
    }

    /// Number of records.
    pub fn len(&self) -> (n: usize)
        ensures
            n == self@.len(),
    {
        self.users.len()
    }

    /// Whether some record has this identifier.
    pub fn exists_by_id(&self, id: u128) -> (found: bool)
        ensures
            found == !id_unused(self@, id),
    {
        proof {
            lemma_id_position(self@, id);
        }
        let found = self.find_by_id(id);
        found.is_some()
    }

    /// The record with this identifier.
    pub fn find_by_id(&self, id: u128) -> (found: Option<User>)
        ensures
            optional_user_view(found) == by_id(self@, id),
    {
        proof {
            lemma_id_position(self@, id);
        }
        let mut i: usize = 0;
        while i < self.users.len()
            invariant
                0 <= i <= self.users@.len(),
                forall|j: int| 0 <= j < i ==> (#[trigger] self@[j]).id != id,
            decreases self.users@.len() - i,
        {
            if self.users[i].id == id {
                proof {
                    lemma_id_position(self@, id);
                    assert(self@[i as int].id == id);
                    assert(id_position(self@, id) == i);
                }
                return Some(self.users[i].clone());
            }
            i += 1;
        }
        assert(id_position(self@, id) == self@.len());
        None
    }

    /// The record with this email.
    pub fn find_by_email(&self, email: &str) -> (found: Option<User>)
        ensures
            optional_user_view(found) == by_email(self@, email@),
    {
        proof {
            lemma_email_position(self@, email@);
        }
        let mut i: usize = 0;
        while i < self.users.len()
            invariant
                0 <= i <= self.users@.len(),
                forall|j: int| 0 <= j < i ==> (#[trigger] self@[j]).email != email@,
            decreases self.users@.len() - i,
        {
            if same_text(self.users[i].email.as_str(), email) {
                proof {
                    lemma_email_position(self@, email@);
                    assert(self@[i as int].email == email@);
                    assert(email_position(self@, email@) == i);
                }
                return Some(self.users[i].clone());
            }
            i += 1;
        }
        assert(email_position(self@, email@) == self@.len());
        None
    }

    /// Whether some record has this email.
    pub fn exists_by_email(&self, email: &str) -> (found: bool)
        ensures
            found == has_email(self@, email@),
    {
        proof {
            lemma_email_position(self@, email@);
        }
        let found = self.find_by_email(email);
        found.is_some()
    }

    /// The first identifier, from `start` on, that no record has.
    pub fn unused_id_from(&self, start: u128) -> (id: u128)
        ensures
            id == first_unused_from(self@, start),
            id_unused(self@, id),
    {
        let total = self.users.len();
        proof {
            assert(self@.len() == total);
            lemma_first_unused_from(self@, start);
        }
        let mut candidate: u128 = start;
        let mut steps: usize = 0;
        while self.exists_by_id(candidate)
            invariant
                steps <= self@.len() <= usize::MAX,
                candidate == id_after(start, steps as nat),
                steps_to_unused(self@, start, steps as nat) == steps_to_unused(self@, start, 0),
                steps_to_unused(self@, start, 0) <= self@.len(),
            decreases self@.len() - steps,
        {
            proof {
                lemma_steps_to_unused(self@, start, (steps + 1) as nat);
            }
            candidate = if candidate == u128::MAX {
                0
            } else {
                candidate + 1
            };
            steps += 1;
        }
        candidate
    }

    /// Creates a record under a new identifier, unless the email is taken.
    /// The identifier is drawn at random; should a record have it already,
    /// the first one after it that no record has is taken instead. The check
    /// and the insertion are one step of the one writer, and no record that
    /// is there is touched.
    pub fn create(&mut self, email: String, password_hash: String) -> (res: Result<
        User,
        RepositoryError,
    >)
        requires
            old(self).wf(),
        ensures
            final(self).wf(),
            has_email(old(self)@, email@) ==> res == Err::<User, RepositoryError>(
                RepositoryError::AlreadyExists,
            ) && final(self)@ == old(self)@,
            !has_email(old(self)@, email@) ==> res is Ok && id_unused(old(self)@, res->Ok_0.id)
                && res->Ok_0@ == new_user(
                res->Ok_0.id,
                res->Ok_0.created_at,
                email@,
                password_hash@,
            ) && final(self)@ == old(self)@.push(res->Ok_0@),
    {
        let drawn = fresh_id();
        let now = now_micros();
        self.create_from(drawn, now, email, password_hash)
    }

    /// Creates a record at time `now`, unless the email is taken, under the
    /// first identifier from `drawn` on that no record has.
    pub fn create_from(&mut self, drawn: u128, now: i64, email: String, password_hash: String) -> (res:
        Result<User, RepositoryError>)
        requires
            old(self).wf(),
        ensures
            final(self).wf(),
            has_email(old(self)@, email@) ==> res == Err::<User, RepositoryError>(
                RepositoryError::AlreadyExists,
            ) && final(self)@ == old(self)@,
            !has_email(old(self)@, email@) ==> res is Ok && res->Ok_0@ == new_user(
                first_unused_from(old(self)@, drawn),
                now,
                email@,
                password_hash@,
            ) && id_unused(old(self)@, res->Ok_0.id) && final(self)@ == old(self)@.push(
                res->Ok_0@,
            ),
            final(self)@ == after_draft(
                old(self)@,
                (Draft { drawn, now, email: email@, password_hash: password_hash@ }),
            ),
    {
        let id = self.unused_id_from(drawn);
        self.create_with(id, now, email, password_hash)
    }

    /// Creates a record under the given identifier and time. A taken email
    /// is refused with `AlreadyExists`, an identifier in use with an internal
    /// error; neither changes the store.
    pub fn create_with(&mut self, id: u128, now: i64, email: String, password_hash: String) -> (res:
        Result<User, RepositoryError>)
        requires
            old(self).wf(),
        ensures
            final(self).wf(),
            has_email(old(self)@, email@) ==> res == Err::<User, RepositoryError>(
                RepositoryError::AlreadyExists,
            ),
            !has_email(old(self)@, email@) && !id_unused(old(self)@, id) ==> res is Err
                && res->Err_0@ == RepositoryErrorView::Internal(identifier_in_use()),
            res is Ok <==> create_succeeds(old(self)@, new_user(id, now, email@, password_hash@)),
            res is Ok ==> res->Ok_0@ == new_user(id, now, email@, password_hash@),
            final(self)@ == after_create(old(self)@, new_user(id, now, email@, password_hash@)),
    {
        if self.exists_by_email(email.as_str()) {
            return Err(RepositoryError::AlreadyExists);
        }
        if self.exists_by_id(id) {
            return Err(RepositoryError::Internal("User identifier already in use".to_owned()));
        }
        let user = User::with_identity(id, now, email, password_hash);
        let ghost before = self@;
        proof {
            lemma_push_keeps_distinct(before, user@);
        }
        self.users.push(user.clone());
        assert(self@ =~= before.push(user@));
        Ok(user)
    }

    /// Inserts a record made elsewhere, unless its email or its identifier
    /// is taken.
    pub fn insert(&mut self, user: &User) -> (res: Result<(), DatabaseError>)
        requires
            old(self).wf(),
        ensures
            final(self).wf(),
            res is Ok <==> create_succeeds(old(self)@, user@),
            res is Err ==> res == Err::<(), DatabaseError>(DatabaseError::AlreadyExists),
            final(self)@ == after_create(old(self)@, user@),
    {
        if self.exists_by_email(user.email.as_str()) || self.exists_by_id(user.id) {
            return Err(DatabaseError::AlreadyExists);
        }
        let ghost before = self@;
        proof {
            lemma_push_keeps_distinct(before, user@);
        }
        self.users.push(user.clone());
        assert(self@ =~= before.push(user@));
        Ok(())
    }

    /// A page of the records, in the order in which they came, and the number
    /// of all records.
    pub fn list(&self, page: u32, limit: u32) -> (res: (Vec<User>, u64))
        ensures
            user_views(res.0@) == page_of(self@, page, limit),
            res.1 == self@.len(),
    {
        let total = self.users.len();
        let mut out: Vec<User> = Vec::new();
        if page == 0 {
            assert(user_views(out@) =~= page_of(self@, page, limit));
            return (out, total as u64);
        }
        let before: u64 = (page - 1) as u64;
        let width: u64 = limit as u64;
        assert(before * width <= 0xffff_ffff * 0xffff_ffff) by (nonlinear_arith)
            requires
                0 <= before <= 0xffff_ffff,
                0 <= width <= 0xffff_ffff,
        ;
        let offset: u64 = before * width;
        assert(offset == page_offset(page, limit));
        if offset >= total as u64 {
            assert(user_views(out@) =~= page_of(self@, page, limit));
            return (out, total as u64);
        }
        let end: usize = if offset + width < total as u64 {
            (offset + width) as usize
        } else {
            total
        };
        assert(end == page_end(self@.len() as int, page, limit));
        let start: usize = offset as usize;
        let mut i: usize = start;
        while i < end
            invariant
                start <= i <= end <= self.users@.len(),
                out@.len() == i - start,
                forall|k: int| 0 <= k < out@.len() ==> (#[trigger] out@[k])@ == self@[start + k],
            decreases end - i,
        {
            out.push(self.users[i].clone());
            i += 1;
        }
        assert(user_views(out@) =~= page_of(self@, page, limit));
        (out, total as u64)
    }
}

} // verus!
