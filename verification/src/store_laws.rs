//! What holds of the identity store over several calls.

use crate::store::{
    after_create, after_creates, after_draft, after_drafts, by_email, by_id, create_succeeds,
    drafted, has_email, lemma_email_position, lemma_first_unused_from, lemma_id_position,
    lemma_push_keeps_distinct, page_of, page_offset, records_distinct, Draft,
};
use crate::user::UserView;
use vstd::prelude::*;

verus! {

/// The emails of the drafts are new to the store and differ among
/// themselves.
pub open spec fn emails_new(users: Seq<UserView>, drafts: Seq<Draft>) -> bool {
    &&& forall|k: int| 0 <= k < drafts.len() ==> !has_email(users, (#[trigger] drafts[k]).email)
    &&& forall|j: int, k: int|
        0 <= j < k < drafts.len() ==> (#[trigger] drafts[j]).email != (#[trigger] drafts[k]).email
}

/// A create keeps the store in order, keeps every record where it was, and
/// adds at most one.
pub proof fn lemma_draft_keeps_records(users: Seq<UserView>, draft: Draft)
    requires
        records_distinct(users),
        users.len() <= u128::MAX,
    ensures
        records_distinct(after_draft(users, draft)),
        users.len() <= after_draft(users, draft).len() <= users.len() + 1,
        forall|i: int| 0 <= i < users.len() ==> after_draft(users, draft)[i] == users[i],
        has_email(after_draft(users, draft), draft.email),
        forall|e: Seq<char>|
            has_email(after_draft(users, draft), e) ==> has_email(users, e) || e == draft.email,
{
    if !has_email(users, draft.email) {
        let record = drafted(users, draft);
        lemma_first_unused_from(users, draft.drawn);
        lemma_push_keeps_distinct(users, record);
        let after = users.push(record);
        assert(after[users.len() as int].email == draft.email);
        assert forall|e: Seq<char>| has_email(after, e) implies has_email(users, e) || e
            == draft.email by {
            let i = choose|i: int| 0 <= i < after.len() && (#[trigger] after[i]).email == e;
            if i < users.len() {
                assert(users[i].email == e);
            }
        }
    }
}

/// Creates only add: whatever is asked for and whatever is drawn, the
/// records that were there stay where they were, and the store stays in
/// order.
pub proof fn lemma_drafts_keep_records(users: Seq<UserView>, drafts: Seq<Draft>)
    requires
        records_distinct(users),
        users.len() + drafts.len() <= u128::MAX,
    ensures
        records_distinct(after_drafts(users, drafts)),
        users.len() <= after_drafts(users, drafts).len() <= users.len() + drafts.len(),
        forall|i: int| 0 <= i < users.len() ==> after_drafts(users, drafts)[i] == users[i],
        forall|e: Seq<char>|
            has_email(after_drafts(users, drafts), e) ==> has_email(users, e) || exists|j: int|
                0 <= j < drafts.len() && (#[trigger] drafts[j]).email == e,
    decreases drafts.len(),
{
    if drafts.len() > 0 {
        let front = drafts.drop_last();
        let before = after_drafts(users, front);
        lemma_drafts_keep_records(users, front);
        lemma_draft_keeps_records(before, drafts.last());
        let after = after_drafts(users, drafts);
        assert forall|e: Seq<char>| has_email(after, e) implies has_email(users, e) || exists|
            j: int,
        |
            0 <= j < drafts.len() && (#[trigger] drafts[j]).email == e by {
            if !has_email(users, e) {
                if has_email(before, e) {
                    let j = choose|j: int| 0 <= j < front.len() && (#[trigger] front[j]).email == e;
                    assert(drafts[j].email == e);
                } else {
                    assert(drafts[drafts.len() - 1].email == e);
                }
            }
        }
    }
}

/// Creates for one part of the drafts and then for the rest are creates for
/// all of them.
pub proof fn lemma_drafts_in_two(users: Seq<UserView>, first: Seq<Draft>, rest: Seq<Draft>)
    ensures
        after_drafts(users, first + rest) == after_drafts(after_drafts(users, first), rest),
    decreases rest.len(),
{
    if rest.len() == 0 {
        assert(first + rest =~= first);
    } else {
        lemma_drafts_in_two(users, first, rest.drop_last());
        assert((first + rest).drop_last() =~= first + rest.drop_last());
        assert((first + rest).last() == rest.last());
    }
}

/// Every create of a sequence with new, distinct emails succeeds, whatever
/// identifiers are drawn: when its turn comes its email is not taken, and
/// the store has grown by one record for each create before it.
pub proof fn lemma_creates_all_succeed(users: Seq<UserView>, drafts: Seq<Draft>, k: int)
    requires
        records_distinct(users),
        users.len() + drafts.len() <= u128::MAX,
        emails_new(users, drafts),
        0 <= k <= drafts.len(),
    ensures
        k < drafts.len() ==> !has_email(after_drafts(users, drafts.take(k)), drafts[k].email),
        after_drafts(users, drafts.take(k)).len() == users.len() + k,
    decreases k,
{
    let front = drafts.take(k);
    lemma_drafts_keep_records(users, front);
    if k < drafts.len() && has_email(after_drafts(users, front), drafts[k].email) {
        let j = choose|j: int| 0 <= j < front.len() && (#[trigger] front[j]).email == drafts[k].email;
        assert(front[j] == drafts[j]);
    }
    if k > 0 {
        lemma_creates_all_succeed(users, drafts, k - 1);
        assert(front.drop_last() =~= drafts.take(k - 1));
        assert(front.last() == drafts[k - 1]);
    }
}

/// After a sequence of creates with new, distinct emails, each created
/// record is found by its identifier and by its email, as it was created,
/// whatever identifiers were drawn.
pub proof fn lemma_creates_retrievable(users: Seq<UserView>, drafts: Seq<Draft>, k: int)
    requires
        records_distinct(users),
        users.len() + drafts.len() <= u128::MAX,
        emails_new(users, drafts),
        0 <= k < drafts.len(),
    ensures
        by_id(
            after_drafts(users, drafts),
            drafted(after_drafts(users, drafts.take(k)), drafts[k]).id,
        ) == Some(drafted(after_drafts(users, drafts.take(k)), drafts[k])),
        by_email(after_drafts(users, drafts), drafts[k].email) == Some(
            drafted(after_drafts(users, drafts.take(k)), drafts[k]),
        ),
{
    let before = after_drafts(users, drafts.take(k));
    let record = drafted(before, drafts[k]);
    let upto = drafts.take(k + 1);
    let rest = drafts.subrange(k + 1, drafts.len() as int);
    lemma_creates_all_succeed(users, drafts, k);
    lemma_drafts_keep_records(users, drafts.take(k));
    assert(upto.drop_last() =~= drafts.take(k));
    assert(upto.last() == drafts[k]);
    let with_record = after_drafts(users, upto);
    assert(with_record == before.push(record));
    lemma_draft_keeps_records(before, drafts[k]);
    assert(upto + rest =~= drafts);
    lemma_drafts_in_two(users, upto, rest);
    lemma_drafts_keep_records(with_record, rest);
    let end = after_drafts(users, drafts);
    assert(end[before.len() as int] == with_record[before.len() as int]);
    lemma_record_is_found(end, before.len() as int);
}

/// Creates only add: whatever is created later, with whatever emails and
/// identifiers, the records that were there stay where they were, and the
/// store stays in order.
pub proof fn lemma_creates_keep_records(users: Seq<UserView>, later: Seq<UserView>)
    requires
        records_distinct(users),
    ensures
        records_distinct(after_creates(users, later)),
        after_creates(users, later).len() >= users.len(),
        forall|i: int| 0 <= i < users.len() ==> after_creates(users, later)[i] == users[i],
    decreases later.len(),
{
    if later.len() > 0 {
        let before = after_creates(users, later.drop_last());
        lemma_creates_keep_records(users, later.drop_last());
        if create_succeeds(before, later.last()) {
            lemma_push_keeps_distinct(before, later.last());
        }
    }
}

/// A record in a store that is in order is the one found under its
/// identifier and under its email.
pub proof fn lemma_record_is_found(users: Seq<UserView>, p: int)
    requires
        records_distinct(users),
        0 <= p < users.len(),
    ensures
        by_id(users, users[p].id) == Some(users[p]),
        by_email(users, users[p].email) == Some(users[p]),
{
    lemma_id_position(users, users[p].id);
    lemma_email_position(users, users[p].email);
}

/// A created record is found again by its identifier and by its email,
/// with every field as it was returned, after any number of further
/// creates, whether they succeed or not.
pub proof fn lemma_created_stays_found(users: Seq<UserView>, record: UserView, later: Seq<UserView>)
    requires
        records_distinct(users),
        create_succeeds(users, record),
    ensures
        by_id(after_creates(after_create(users, record), later), record.id) == Some(record),
        by_email(after_creates(after_create(users, record), later), record.email) == Some(record),
{
    let with_record = users.push(record);
    lemma_push_keeps_distinct(users, record);
    lemma_creates_keep_records(with_record, later);
    let end = after_creates(with_record, later);
    assert(end[users.len() as int] == with_record[users.len() as int]);
    lemma_record_is_found(end, users.len() as int);
}

/// A created record's email is taken.
pub proof fn lemma_created_email_is_taken(users: Seq<UserView>, first: UserView)
    requires
        create_succeeds(users, first),
    ensures
        has_email(after_create(users, first), first.email),
{
    let after = users.push(first);
    assert(after[users.len() as int].email == first.email);
}

/// Of two creates with one email, never both succeed, whichever comes first
/// and whatever identifiers they bring.
pub proof fn lemma_same_email_never_both(users: Seq<UserView>, a: UserView, b: UserView)
    requires
        a.email == b.email,
    ensures
        !(create_succeeds(users, a) && create_succeeds(after_create(users, a), b)),
{
    if create_succeeds(users, a) {
        lemma_created_email_is_taken(users, a);
    }
}

/// Of two creates with one email that is not yet taken, exactly one
/// succeeds, in whichever order the store takes them and whatever
/// identifiers are drawn: the first. The second finds the email taken and
/// leaves the store as the first left it, with one record of that email.
pub proof fn lemma_same_email_creates_exclude(users: Seq<UserView>, a: Draft, b: Draft)
    requires
        records_distinct(users),
        users.len() <= u128::MAX,
        a.email == b.email,
        !has_email(users, a.email),
    ensures
        after_draft(users, a) == users.push(drafted(users, a)),
        has_email(after_draft(users, a), b.email),
        after_draft(after_draft(users, a), b) == after_draft(users, a),
        after_draft(users, b) == users.push(drafted(users, b)),
        has_email(after_draft(users, b), a.email),
        after_draft(after_draft(users, b), a) == after_draft(users, b),
{
    lemma_draft_keeps_records(users, a);
    lemma_draft_keeps_records(users, b);
}

/// A page holds at most `limit` records.
pub proof fn lemma_page_length(users: Seq<UserView>, page: u32, limit: u32)
    ensures
        page_of(users, page, limit).len() <= limit,
{
}

/// A page that starts at or after the end of the records is empty.
pub proof fn lemma_page_past_end(users: Seq<UserView>, page: u32, limit: u32)
    requires
        page >= 1,
        page_offset(page, limit) >= users.len(),
    ensures
        page_of(users, page, limit) == Seq::<UserView>::empty(),
{
}

/// The pages from 1 to `count`, one after the other.
pub open spec fn pages_through(users: Seq<UserView>, limit: u32, count: nat) -> Seq<UserView>
    decreases count,
{
    if count == 0 {
        Seq::empty()
    } else {
        pages_through(users, limit, (count - 1) as nat) + page_of(users, count as u32, limit)
    }
}

/// The number of pages that hold `total` records: `total / limit`, rounded up.
pub open spec fn page_count(total: nat, limit: u32) -> nat {
    ((total + limit - 1) / (limit as int)) as nat
}

/// The first `count` pages are the records up to `count * limit`.
pub proof fn lemma_pages_prefix(users: Seq<UserView>, limit: u32, count: nat)
    requires
        limit >= 1,
        count <= u32::MAX,
    ensures
        pages_through(users, limit, count) == users.take(
            if count * limit < users.len() {
                count * limit
            } else {
                users.len() as int
            },
        ),
    decreases count,
{
    if count == 0 {
        assert(users.take(0) =~= Seq::<UserView>::empty());
    } else {
        let before = (count - 1) as nat;
        lemma_pages_prefix(users, limit, before);
        assert(page_offset(count as u32, limit) == before * limit);
        assert(before * limit + limit == count * limit) by (nonlinear_arith)
            requires
                before + 1 == count,
        ;
        assert(before * limit >= 0) by (nonlinear_arith)
            requires
                before >= 0,
                limit >= 0,
        ;
        let start = if before * limit < users.len() {
            before * limit
        } else {
            users.len() as int
        };
        let end = if count * limit < users.len() {
            count * limit
        } else {
            users.len() as int
        };
        assert(users.take(start) + page_of(users, count as u32, limit) =~= users.take(end));
    }
}

/// All pages in order, from the first to the last, give back every record
/// once, in the store's order.
pub proof fn lemma_pages_cover(users: Seq<UserView>, limit: u32)
    requires
        limit >= 1,
        page_count(users.len(), limit) <= u32::MAX,
    ensures
        pages_through(users, limit, page_count(users.len(), limit)) == users,
{
    let count = page_count(users.len(), limit);
    lemma_pages_prefix(users, limit, count);
    let total = users.len() as int;
    let width = limit as int;
    assert(count * width >= total) by (nonlinear_arith)
        requires
            width >= 1,
            total >= 0,
            count == (total + width - 1) / width,
    ;
    assert(users.take(total) =~= users);
}

} // verus!
