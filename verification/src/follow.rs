//! Following other users: the toggle rule, the follower and followee lists,
//! and the column set of the list query.

#![allow(non_snake_case, non_camel_case_types)]

use vstd::prelude::*;
use crate::text::u64_to_decimal;

verus! {

// ---------------------------------------------------------------------------
// Result columns of the followship query.
// ---------------------------------------------------------------------------

/// The columns of a followship list query.
#[derive(Debug, Clone, Copy, PartialEq, Eq)]
pub enum ResultCol {
    Target,
    Source,
    Username,
    Email,
    Time,
    SelfFollowed,
}

/// All columns, in declaration order.
pub open spec fn all_result_cols() -> Seq<ResultCol> {
    seq![
        ResultCol::Target,
        ResultCol::Source,
        ResultCol::Username,
        ResultCol::Email,
        ResultCol::Time,
        ResultCol::SelfFollowed,
    ]
}

impl ResultCol {
    /// The column's name in SQL.
    pub open spec fn name_spec(self) -> Seq<char> {
        match self {
            ResultCol::Target => "target"@,
            ResultCol::Source => "source"@,
            ResultCol::Username => "username"@,
            ResultCol::Email => "email"@,
            ResultCol::Time => "time"@,
            ResultCol::SelfFollowed => "self_followed"@,
        }
    }

    /// The column's name in SQL.
    pub fn unquoted(&self) -> (res: String)
        ensures
            res@ == self.name_spec(),
    {
        match self {
            ResultCol::Target => String::from_str("target"),
            ResultCol::Source => String::from_str("source"),
            ResultCol::Username => String::from_str("username"),
            ResultCol::Email => String::from_str("email"),
            ResultCol::Time => String::from_str("time"),
            ResultCol::SelfFollowed => String::from_str("self_followed"),
        }
    }

    /// An iterator over all columns, from the first.
    pub fn iter() -> (res: ResultColIter)
        ensures
            res.remaining() == all_result_cols(),
    {
        ResultColIter { idx: 0, back_idx: 0 }
    }
}

/// One call on a column iterator.
#[derive(Debug, Clone, Copy, PartialEq, Eq)]
pub enum ColumnCall {
    Next,
    Nth(usize),
    NextBack,
}

impl ColumnCall {
    /// Whether the call takes columns from the front.
    pub open spec fn from_front(self) -> bool {
        !(self is NextBack)
    }

    /// How many positions the call consumes: `nth(n)` consumes `n + 1`.
    pub open spec fn width(self) -> int {
        match self {
            ColumnCall::Nth(n) => n + 1,
            _ => 1,
        }
    }
}

/// What `call` yields on an iterator whose remaining columns are `rem`.
pub open spec fn call_result(rem: Seq<ResultCol>, call: ColumnCall) -> Option<ResultCol> {
    match call {
        ColumnCall::Next => if rem.len() > 0 { Some(rem[0]) } else { None },
        ColumnCall::Nth(n) => if n < rem.len() { Some(rem[n as int]) } else { None },
        ColumnCall::NextBack => if rem.len() > 0 { Some(rem.last()) } else { None },
    }
}

/// The columns that remain after `call` on an iterator whose remaining
/// columns are `rem`; a call that finds too few columns exhausts it.
pub open spec fn call_remaining(rem: Seq<ResultCol>, call: ColumnCall) -> Seq<ResultCol> {
    match call {
        ColumnCall::Next => if rem.len() > 0 { rem.drop_first() } else { Seq::empty() },
        ColumnCall::Nth(n) => if n < rem.len() { rem.skip(n + 1) } else { Seq::empty() },
        ColumnCall::NextBack => if rem.len() > 0 { rem.drop_last() } else { Seq::empty() },
    }
}

/// The columns left after `calls` on a fresh iterator.
pub open spec fn remaining_after(calls: Seq<ColumnCall>) -> Seq<ResultCol>
    decreases calls.len(),
{
    if calls.len() == 0 {
        all_result_cols()
    } else {
        call_remaining(remaining_after(calls.drop_last()), calls.last())
    }
}

/// What each of `calls` yields, in order, on a fresh iterator.
pub open spec fn results_after(calls: Seq<ColumnCall>) -> Seq<Option<ResultCol>>
    decreases calls.len(),
{
    if calls.len() == 0 {
        Seq::empty()
    } else {
        results_after(calls.drop_last()).push(call_result(remaining_after(calls.drop_last()), calls.last()))
    }
}

/// The positions `calls` consume from both ends together.
pub open spec fn positions_consumed(calls: Seq<ColumnCall>) -> int
    decreases calls.len(),
{
    if calls.len() == 0 { 0 } else { positions_consumed(calls.drop_last()) + calls.last().width() }
}

/// How many of `results` are columns.
pub open spec fn column_count(results: Seq<Option<ResultCol>>) -> int
    decreases results.len(),
{
    if results.len() == 0 {
        0
    } else {
        column_count(results.drop_last()) + if results.last() is Some { 1int } else { 0int }
    }
}

/// A column's position in the declaration order.
pub open spec fn col_index(c: ResultCol) -> int {
    match c {
        ResultCol::Target => 0,
        ResultCol::Source => 1,
        ResultCol::Username => 2,
        ResultCol::Email => 3,
        ResultCol::Time => 4,
        ResultCol::SelfFollowed => 5,
    }
}

/// How many columns `calls` took from the front and from the back of a
/// fresh iterator.
pub open spec fn taken_after(calls: Seq<ColumnCall>) -> (int, int)
    decreases calls.len(),
{
    if calls.len() == 0 {
        (0, 0)
    } else {
        let (f, b) = taken_after(calls.drop_last());
        match calls.last() {
            ColumnCall::Next => if f + b < 6 { (f + 1, b) } else { (f, b) },
            ColumnCall::Nth(n) => if n < 6 - f - b { (f + n + 1, b) } else { (6 - b, b) },
            ColumnCall::NextBack => if f + b < 6 { (f, b + 1) } else { (f, b) },
        }
    }
}

proof fn lemma_col_index_of_all()
    ensures
        forall|k: int| 0 <= k < 6 ==> #[trigger] col_index(all_result_cols()[k]) == k,
{
    assert(col_index(all_result_cols()[0]) == 0);
    assert(col_index(all_result_cols()[1]) == 1);
    assert(col_index(all_result_cols()[2]) == 2);
    assert(col_index(all_result_cols()[3]) == 3);
    assert(col_index(all_result_cols()[4]) == 4);
    assert(col_index(all_result_cols()[5]) == 5);
}

/// The invariant behind `lemma_column_calls`, over the columns taken from
/// each end.
proof fn lemma_taken_invariant(calls: Seq<ColumnCall>)
    ensures
        ({
            let (f, b) = taken_after(calls);
            let rs = results_after(calls);
            &&& 0 <= f && 0 <= b && f + b <= 6
            &&& remaining_after(calls) == all_result_cols().subrange(f, 6 - b)
            &&& rs.len() == calls.len()
            &&& forall|i: int| 0 <= i < calls.len() && rs[i] is Some && calls[i].from_front()
                ==> 0 <= col_index(rs[i]->0) < f
            &&& forall|i: int| 0 <= i < calls.len() && rs[i] is Some && !calls[i].from_front()
                ==> 6 - b <= col_index(rs[i]->0) < 6
            &&& forall|i: int, j: int| 0 <= i < j < calls.len() && rs[i] is Some && rs[j] is Some
                && calls[i].from_front() && calls[j].from_front()
                ==> col_index(rs[i]->0) < col_index(rs[j]->0)
            &&& forall|i: int, j: int| 0 <= i < j < calls.len() && rs[i] is Some && rs[j] is Some
                && !calls[i].from_front() && !calls[j].from_front()
                ==> col_index(rs[i]->0) > col_index(rs[j]->0)
            &&& forall|i: int| 0 <= i < calls.len() && rs[i] is None ==> f + b == 6
            &&& forall|i: int, j: int| 0 <= i < j < calls.len() && rs[i] is None ==> rs[j] is None
            &&& column_count(rs) <= f + b
            &&& (f + b == positions_consumed(calls) && positions_consumed(calls) <= 6)
                || (f + b == 6 && positions_consumed(calls) >= 6)
        }),
    decreases calls.len(),
{
    lemma_col_index_of_all();
    if calls.len() == 0 {
        assert(all_result_cols().subrange(0, 6) =~= all_result_cols());
    } else {
        let p = calls.drop_last();
        let c = calls.last();
        lemma_taken_invariant(p);
        let (f0, b0) = taken_after(p);
        let (f, b) = taken_after(calls);
        let rem0 = remaining_after(p);
        let rs0 = results_after(p);
        let rs = results_after(calls);
        let r = call_result(rem0, c);
        assert(rs == rs0.push(r));
        assert(rem0.len() == 6 - f0 - b0);
        assert forall|i: int| 0 <= i < p.len() implies calls[i] == p[i] && rs[i] == rs0[i] by {}
        let n = calls.len() - 1;
        assert(calls[n] == c && rs[n] == r);
        match c {
            ColumnCall::Next => {
                if f0 + b0 < 6 {
                    assert(r == Some(all_result_cols()[f0]));
                    assert(remaining_after(calls) =~= all_result_cols().subrange(f, 6 - b));
                } else {
                    assert(remaining_after(calls) =~= all_result_cols().subrange(f, 6 - b));
                }
            },
            ColumnCall::Nth(k) => {
                if k < 6 - f0 - b0 {
                    assert(r == Some(all_result_cols()[f0 + k]));
                    assert(remaining_after(calls) =~= all_result_cols().subrange(f, 6 - b));
                } else {
                    assert(remaining_after(calls) =~= all_result_cols().subrange(f, 6 - b));
                }
            },
            ColumnCall::NextBack => {
                if f0 + b0 < 6 {
                    assert(r == Some(all_result_cols()[5 - b0]));
                    assert(remaining_after(calls) =~= all_result_cols().subrange(f, 6 - b));
                } else {
                    assert(remaining_after(calls) =~= all_result_cols().subrange(f, 6 - b));
                }
            },
        }
        assert(rs.drop_last() == rs0);
    }
}

/// Any sequence of `next`, `nth` and `next_back` calls on a fresh column
/// iterator: the columns it yields are pairwise distinct; those taken from the
/// front come in declaration order and those taken from the back in reverse;
/// every front column precedes every back column; at most six columns come
/// out; after the first `None` every call yields `None`; and the columns left
/// are a contiguous run of the declaration order whose length is six less the
/// positions consumed (`nth(n)` consumes `n + 1`), or none once six or more
/// were consumed.
pub proof fn lemma_column_calls(calls: Seq<ColumnCall>)
    ensures
        ({
            let (f, b) = taken_after(calls);
            0 <= f && 0 <= b && f + b <= 6 && remaining_after(calls) == all_result_cols().subrange(f, 6 - b)
        }),
        remaining_after(calls).len() == (if positions_consumed(calls) >= 6 { 0 } else { 6 - positions_consumed(calls) }),
        results_after(calls).len() == calls.len(),
        forall|i: int, j: int| 0 <= i < j < calls.len() && results_after(calls)[i] is Some
            && results_after(calls)[j] is Some ==> results_after(calls)[i] != results_after(calls)[j],
        forall|i: int, j: int| 0 <= i < j < calls.len() && results_after(calls)[i] is Some
            && results_after(calls)[j] is Some && calls[i].from_front() && calls[j].from_front()
            ==> col_index(results_after(calls)[i]->0) < col_index(results_after(calls)[j]->0),
        forall|i: int, j: int| 0 <= i < j < calls.len() && results_after(calls)[i] is Some
            && results_after(calls)[j] is Some && !calls[i].from_front() && !calls[j].from_front()
            ==> col_index(results_after(calls)[i]->0) > col_index(results_after(calls)[j]->0),
        forall|i: int, j: int| 0 <= i < calls.len() && 0 <= j < calls.len() && results_after(calls)[i] is Some
            && results_after(calls)[j] is Some && calls[i].from_front() && !calls[j].from_front()
            ==> col_index(results_after(calls)[i]->0) < col_index(results_after(calls)[j]->0),
        forall|i: int, j: int| 0 <= i < j < calls.len() && results_after(calls)[i] is None
            ==> results_after(calls)[j] is None,
        column_count(results_after(calls)) <= 6,
{
    lemma_taken_invariant(calls);
    let rs = results_after(calls);
    assert forall|i: int, j: int| 0 <= i < j < calls.len() && rs[i] is Some && rs[j] is Some
        implies rs[i] != rs[j] by {
        if calls[i].from_front() && calls[j].from_front() {
            assert(col_index(rs[i]->0) < col_index(rs[j]->0));
        } else if !calls[i].from_front() && !calls[j].from_front() {
            assert(col_index(rs[i]->0) > col_index(rs[j]->0));
        } else {
            assert(col_index(rs[i]->0) != col_index(rs[j]->0));
        }
    }
}

/// Runs `calls` in order on a fresh column iterator and collects what each
/// yields, with the iterator as they leave it.
pub fn run_column_calls(calls: &Vec<ColumnCall>) -> (res: (Vec<Option<ResultCol>>, ResultColIter))
    ensures
        res.0@ == results_after(calls@),
        res.1.remaining() == remaining_after(calls@),
{
    let mut it = ResultCol::iter();
    let mut out: Vec<Option<ResultCol>> = Vec::new();
    let mut i: usize = 0;
    assert(calls@.take(0) =~= Seq::<ColumnCall>::empty());
    while i < calls.len()
        invariant
            i <= calls.len(),
            out@ == results_after(calls@.take(i as int)),
            it.remaining() == remaining_after(calls@.take(i as int)),
        decreases calls.len() - i,
    {
        let ghost prefix = calls@.take(i as int + 1);
        assert(prefix.drop_last() =~= calls@.take(i as int));
        assert(prefix.last() == calls@[i as int]);
        let r = match calls[i] {
            ColumnCall::Next => it.next(),
            ColumnCall::Nth(n) => it.nth(n),
            ColumnCall::NextBack => it.next_back(),
        };
        out.push(r);
        i = i + 1;
    }
    assert(calls@.take(calls@.len() as int) =~= calls@);
    (out, it)
}

/// A double-ended iterator over the columns: `idx` columns were taken from
/// the front and `back_idx` from the back.
pub struct ResultColIter {
    idx: usize,
    back_idx: usize,
}

/// The columns not yet taken when `front` were taken from the front and
/// `back` from the back.
pub open spec fn remaining_cols(front: int, back: int) -> Seq<ResultCol> {
    if front + back <= 6 {
        all_result_cols().subrange(front, 6 - back)
    } else {
        Seq::empty()
    }
}

impl ResultColIter {
    #[verifier::type_invariant]
    spec fn counters_in_range(self) -> bool {
        self.idx <= 6 && self.back_idx <= 6
    }

    /// The columns this iterator has yet to yield, in order.
    pub closed spec fn remaining(self) -> Seq<ResultCol> {
        remaining_cols(self.idx as int, self.back_idx as int)
    }

    /// The column at position `idx` of the declaration order.
    pub fn get(&self, idx: usize) -> (res: Option<ResultCol>)
        ensures
            res == (if idx < 6 { Some(all_result_cols()[idx as int]) } else { None::<ResultCol> }),
    {
        match idx {
            0 => Some(ResultCol::Target),
            1 => Some(ResultCol::Source),
            2 => Some(ResultCol::Username),
            3 => Some(ResultCol::Email),
            4 => Some(ResultCol::Time),
            5 => Some(ResultCol::SelfFollowed),
            _ => None,
        }
    }

    /// Skips `n` columns and yields the next one.
    pub fn nth(&mut self, n: usize) -> (res: Option<ResultCol>)
        ensures
            res == call_result(old(self).remaining(), ColumnCall::Nth(n)),
            final(self).remaining() == call_remaining(old(self).remaining(), ColumnCall::Nth(n)),
    {
        proof { use_type_invariant(&*self); }
        if n >= 6 || self.idx + n + 1 + self.back_idx > 6 {
            self.idx = 6;
            assert(final(self).remaining() =~= Seq::<ResultCol>::empty());
            None
        } else {
            let idx = self.idx + n + 1;
            self.idx = idx;
            let r = self.get(idx - 1);
            assert(final(self).remaining() =~= old(self).remaining().skip(n + 1));
            r
        }
    }

    /// Yields the next column from the front.
    pub fn next(&mut self) -> (res: Option<ResultCol>)
        ensures
            res == call_result(old(self).remaining(), ColumnCall::Next),
            final(self).remaining() == call_remaining(old(self).remaining(), ColumnCall::Next),
    {
        let r = self.nth(0);
        proof {
            if old(self).remaining().len() > 0 {
                assert(old(self).remaining().skip(1) =~= old(self).remaining().drop_first());
            }
        }
        r
    }

    /// Yields the next column from the back.
    pub fn next_back(&mut self) -> (res: Option<ResultCol>)
        ensures
            res == call_result(old(self).remaining(), ColumnCall::NextBack),
            final(self).remaining() == call_remaining(old(self).remaining(), ColumnCall::NextBack),
    {
        proof { use_type_invariant(&*self); }
        let back_idx = self.back_idx + 1;
        if self.idx + back_idx > 6 {
            self.back_idx = 6;
            assert(final(self).remaining() =~= Seq::<ResultCol>::empty());
            None
        } else {
            self.back_idx = back_idx;
            let r = self.get(6 - self.back_idx);
            assert(final(self).remaining() =~= old(self).remaining().drop_last());
            r
        }
    }

    /// The exact number of columns left, as both bounds.
    pub fn size_hint(&self) -> (res: (usize, Option<usize>))
        ensures
            res.0 == self.remaining().len(),
            res.1 == Some(self.remaining().len() as usize),
    {
        proof { use_type_invariant(self); }
        let t = if self.idx + self.back_idx >= 6 { 0 } else { 6 - self.idx - self.back_idx };
        (t, Some(t))
    }

    /// The number of columns left.
    pub fn len(&self) -> (res: usize)
        ensures
            res == self.remaining().len(),
    {
        self.size_hint().0
    }

    /// An iterator at the same position.
    pub fn clone(&self) -> (res: ResultColIter)
        ensures
            res.remaining() == self.remaining(),
    {
        proof { use_type_invariant(self); }
        ResultColIter { idx: self.idx, back_idx: self.back_idx }
    }
}


// ---------------------------------------------------------------------------
// Toggling whether one user follows another.
// ---------------------------------------------------------------------------

/// The body of a toggle request: the user to follow or unfollow.
#[derive(Debug, Clone, Copy, PartialEq, Eq)]
pub struct ToggleFollowStateJson {
    pub target: i32,
}

/// What a toggle request does.
#[derive(Debug, Clone, Copy, PartialEq, Eq)]
pub enum FollowToggle {
    /// Refused: a user cannot follow themself.
    RejectSelf,
    /// The existing follow is removed.
    Unfollow,
    /// Refused: the user already follows `limit` users.
    RejectLimit { limit: u64 },
    /// A new follow is recorded.
    Follow,
}

/// The rule for a toggle request of `uid` about `target`, given whether `uid`
/// already follows `target` and how many users `uid` follows.
pub open spec fn toggle_rule(uid: i32, target: i32, already_following: bool, following_count: u64, limit: u64) -> FollowToggle {
    if uid == target {
        FollowToggle::RejectSelf
    } else if already_following {
        FollowToggle::Unfollow
    } else if following_count >= limit {
        FollowToggle::RejectLimit { limit }
    } else {
        FollowToggle::Follow
    }
}

/// The users `uid` follows after the toggle's effect on `follows`.
pub open spec fn apply_toggle(follows: Set<int>, target: int, outcome: FollowToggle) -> Set<int> {
    match outcome {
        FollowToggle::Follow => follows.insert(target),
        FollowToggle::Unfollow => follows.remove(target),
        _ => follows,
    }
}

impl FollowToggle {
    /// Whether the request succeeds, and then whether `uid` follows `target` afterwards.
    pub open spec fn followed_after(self) -> Option<bool> {
        match self {
            FollowToggle::Follow => Some(true),
            FollowToggle::Unfollow => Some(false),
            _ => None,
        }
    }

    /// The message shown to the user.
    pub fn message(&self) -> (res: String)
        ensures
            res@ == (match *self {
                FollowToggle::RejectSelf => "禁止关注你自己!"@,
                FollowToggle::RejectLimit { limit } => "你最多只能关注 "@ + crate::text::decimal(limit as nat) + " 人!"@,
                _ => "操作完成!"@,
            }),
    {
        match self {
            FollowToggle::RejectSelf => String::from_str("禁止关注你自己!"),
            FollowToggle::RejectLimit { limit } => {
                let mut s = String::from_str("你最多只能关注 ");
                let n = u64_to_decimal(*limit);
                s.append(n.as_str());
                s.append(" 人!");
                s
            },
            _ => String::from_str("操作完成!"),
        }
    }
}

/// The toggle-follow endpoint.
pub struct toggle_follow_state;

impl toggle_follow_state {
    /// Decides a toggle request of `uid` about `target`.
    pub fn decide(uid: i32, target: i32, already_following: bool, following_count: u64, limit: u64) -> (res: FollowToggle)
        ensures
            res == toggle_rule(uid, target, already_following, following_count, limit),
    {
        if uid == target {
            FollowToggle::RejectSelf
        } else if already_following {
            FollowToggle::Unfollow
        } else if following_count >= limit {
            FollowToggle::RejectLimit { limit }
        } else {
            FollowToggle::Follow
        }
    }
}

/// Toggling twice restores whom a user follows, provided the user follows no
/// more than the limit allows.
pub proof fn lemma_toggle_twice_restores(uid: i32, target: i32, follows: Set<int>, limit: u64)
    requires
        follows.finite(),
        follows.len() <= limit,
        uid != target,
        !follows.contains(target as int) ==> follows.len() < limit,
    ensures
        ({
            let first = toggle_rule(uid, target, follows.contains(target as int), follows.len() as u64, limit);
            let mid = apply_toggle(follows, target as int, first);
            let second = toggle_rule(uid, target, mid.contains(target as int), mid.len() as u64, limit);
            apply_toggle(mid, target as int, second) == follows
        }),
{
    if follows.contains(target as int) {
        assert(follows.remove(target as int).insert(target as int) =~= follows);
    } else {
        assert(follows.insert(target as int).remove(target as int) =~= follows);
    }
}

/// A toggle never lets a user follow more users than the limit, and never
/// makes a user follow themself.
pub proof fn lemma_toggle_keeps_limits(uid: i32, target: i32, follows: Set<int>, limit: u64)
    requires
        follows.finite(),
        follows.len() <= limit,
        !follows.contains(uid as int),
    ensures
        ({
            let outcome = toggle_rule(uid, target, follows.contains(target as int), follows.len() as u64, limit);
            let after = apply_toggle(follows, target as int, outcome);
            &&& after.finite()
            &&& after.len() <= limit
            &&& !after.contains(uid as int)
            &&& (outcome.followed_after() == Some(true) ==> after.contains(target as int))
            &&& (outcome.followed_after() == Some(false) ==> !after.contains(target as int))
        }),
{
}

// ---------------------------------------------------------------------------
// Follower and followee lists.
// ---------------------------------------------------------------------------

/// The body of a follower-list request: whose followers, and which page.
#[derive(Debug, Clone, Copy, PartialEq, Eq)]
pub struct GetFollowerListRequest {
    pub target: i32,
    pub page: Option<i32>,
}

/// The body of a followee-list request: whose followees, and which page.
#[derive(Debug, Clone, Copy, PartialEq, Eq)]
pub struct GetFolloweeListRequest {
    pub source: i32,
    pub page: Option<i32>,
}

/// A column of the follower table.
#[derive(Debug, Clone, Copy, PartialEq, Eq)]
pub enum FollowerColumn {
    Source,
    Target,
}

/// Which list is asked for.
#[derive(Debug, Clone, Copy, PartialEq, Eq)]
pub enum FollowshipQuery {
    /// The users that the given user follows.
    SelfFollowing(i32),
    /// The users that follow the given user.
    FollowingSelf(i32),
}

impl FollowshipQuery {
    /// The column that holds the listed users.
    pub open spec fn listed_column_spec(self) -> FollowerColumn {
        match self {
            FollowshipQuery::SelfFollowing(_) => FollowerColumn::Target,
            FollowshipQuery::FollowingSelf(_) => FollowerColumn::Source,
        }
    }

    /// The column and value the rows are filtered by.
    pub open spec fn filter_spec(self) -> (FollowerColumn, i32) {
        match self {
            FollowshipQuery::SelfFollowing(v) => (FollowerColumn::Source, v),
            FollowshipQuery::FollowingSelf(v) => (FollowerColumn::Target, v),
        }
    }

    /// The column that holds the listed users (joined to the user table).
    pub fn listed_column(&self) -> (res: FollowerColumn)
        ensures
            res == self.listed_column_spec(),
    {
        match self {
            FollowshipQuery::SelfFollowing(_) => FollowerColumn::Target,
            FollowshipQuery::FollowingSelf(_) => FollowerColumn::Source,
        }
    }

    /// The column and value the rows are filtered by.
    pub fn filter(&self) -> (res: (FollowerColumn, i32))
        ensures
            res == self.filter_spec(),
    {
        match self {
            FollowshipQuery::SelfFollowing(v) => (FollowerColumn::Source, *v),
            FollowshipQuery::FollowingSelf(v) => (FollowerColumn::Target, *v),
        }
    }
}

/// A list query filters on one side of the follow relation and lists the
/// other side, and it filters by the user the request names.
pub proof fn lemma_query_lists_other_side(q: FollowshipQuery)
    ensures
        q.listed_column_spec() != q.filter_spec().0,
        q.filter_spec().1 == (match q {
            FollowshipQuery::SelfFollowing(v) => v,
            FollowshipQuery::FollowingSelf(v) => v,
        }),
{
}

/// The zero-based page asked for by a one-based page number, with page 1 when
/// none is given; a negative number wraps around as an unsigned size does.
pub open spec fn page_index_spec(page: Option<i32>) -> int {
    let p = match page {
        Some(p) => p as int,
        None => 1,
    };
    if p >= 1 { p - 1 } else { usize::MAX + p }
}

/// The zero-based page index of a list request.
pub fn page_index(page: Option<i32>) -> (res: usize)
    requires
        page != Some(0i32),
    ensures
        res == page_index_spec(page),
{
    let p: i32 = match page {
        Some(p) => p,
        None => 1,
    };
    if p >= 1 {
        (p - 1) as usize
    } else {
        let magnitude: usize = (0i64 - (p as i64)) as usize;
        usize::MAX - magnitude
    }
}

impl GetFollowerListRequest {
    /// The query for this request: the users that follow `target`.
    pub fn query(&self) -> (res: FollowshipQuery)
        ensures
            res == FollowshipQuery::FollowingSelf(self.target),
    {
        FollowshipQuery::FollowingSelf(self.target)
    }
}

impl GetFolloweeListRequest {
    /// The query for this request: the users that `source` follows.
    pub fn query(&self) -> (res: FollowshipQuery)
        ensures
            res == FollowshipQuery::SelfFollowing(self.source),
    {
        FollowshipQuery::SelfFollowing(self.source)
    }
}

/// The number of pages of `page_size` items that hold `count` items.
pub fn page_count(count: u64, page_size: u64) -> (res: u64)
    requires
        page_size > 0,
    ensures
        res as int * page_size >= count,
        res == 0 || (res - 1) * page_size < count,
        res == count / page_size + (if count % page_size != 0 { 1int } else { 0int }),
{
    let extra: u64 = if count % page_size != 0 { 1 } else { 0 };
    proof {
        vstd::arithmetic::div_mod::lemma_fundamental_div_mod(count as int, page_size as int);
        assert(count / page_size <= count) by {
            vstd::arithmetic::div_mod::lemma_div_is_ordered_by_denominator(count as int, 1, page_size as int);
        }
    }
    let q = count / page_size;
    assert(q + extra <= u64::MAX) by {
        if page_size == 1 {
            assert(count % 1 == 0);
        } else {
            vstd::arithmetic::div_mod::lemma_div_is_ordered_by_denominator(count as int, 2, page_size as int);
            assert(count / 2 <= count);
        }
    }
    proof {
        let qi = q as int;
        let ps = page_size as int;
        let r = (count % page_size) as int;
        assert(count == ps * qi + r);
        assert(ps * qi == qi * ps) by (nonlinear_arith);
        assert((qi + extra) * ps == qi * ps + extra * ps) by (nonlinear_arith);
        assert((qi + extra - 1) * ps == qi * ps + (extra - 1) * ps) by (nonlinear_arith);
        assert(extra * ps == (if extra == 1 { ps } else { 0 })) by (nonlinear_arith)
            requires extra == 0 || extra == 1;
        assert((extra - 1) * ps == (if extra == 1 { 0 } else { -ps })) by (nonlinear_arith)
            requires extra == 0 || extra == 1;
    }
    q + extra
}

/// One row of a followship list as the database returns it, with the time as
/// seconds since the epoch.
#[derive(Debug, Clone, PartialEq)]
pub struct FollowRow {
    pub uid: i32,
    pub username: String,
    pub email: String,
    pub time: i64,
}

/// One user in a followship list.
#[derive(Debug, Clone, PartialEq)]
pub struct Followship {
    pub uid: i32,
    pub username: String,
    pub email: String,
    pub followedByMe: bool,
    pub time: i64,
}

/// A page of a followship list.
#[derive(Debug, Clone, PartialEq)]
pub struct FollowshipResponse {
    pub code: i32,
    pub data: Vec<Followship>,
    pub pageCount: usize,
}

/// Whether the viewer follows `uid`: never when nobody is logged in.
pub open spec fn followed_by_viewer(viewer_follows: Option<Seq<i32>>, uid: i32) -> bool {
    match viewer_follows {
        Some(f) => f.contains(uid),
        None => false,
    }
}

/// The contents of an optional list of user ids.
pub open spec fn uid_list_view(v: Option<Vec<i32>>) -> Option<Seq<i32>> {
    match v {
        Some(v) => Some(v@),
        None => None,
    }
}

fn contains_uid(v: &Vec<i32>, uid: i32) -> (res: bool)
    ensures
        res == v@.contains(uid),
{
    let mut i: usize = 0;
    while i < v.len()
        invariant
            i <= v.len(),
            forall|j: int| 0 <= j < i ==> v@[j] != uid,
        decreases v.len() - i,
    {
        if v[i] == uid {
            return true;
        }
        i = i + 1;
    }
    false
}

/// One page of a followship list: each row, marked with whether the viewer
/// follows that user. `viewer_follows` is `None` when nobody is logged in,
/// else the users on this page that the viewer follows.
pub fn generate_followship_list(rows: Vec<FollowRow>, viewer_follows: Option<Vec<i32>>, page_count: usize) -> (res: FollowshipResponse)
    ensures
        res.code == 0,
        res.pageCount == page_count,
        res.data@.len() == rows@.len(),
        forall|i: int| 0 <= i < rows@.len() ==> {
            let r = #[trigger] rows@[i];
            let f = res.data@[i];
            &&& f.uid == r.uid
            &&& f.username == r.username
            &&& f.email == r.email
            &&& f.time == r.time
            &&& f.followedByMe == followed_by_viewer(
                uid_list_view(viewer_follows),
                r.uid,
            )
        },
{
    let ghost view_follows = uid_list_view(viewer_follows);
    let mut data: Vec<Followship> = Vec::new();
    let n = rows.len();
    let mut k: usize = 0;
    while k < n
        invariant
            n == rows@.len(),
            k <= n,
            data@.len() == k,
            view_follows == uid_list_view(viewer_follows),
            forall|i: int| 0 <= i < k ==> {
                let r = #[trigger] rows@[i];
                let f = data@[i];
                &&& f.uid == r.uid
                &&& f.username == r.username
                &&& f.email == r.email
                &&& f.time == r.time
                &&& f.followedByMe == followed_by_viewer(view_follows, r.uid)
            },
        decreases n - k,
    {
        let r = &rows[k];
        let followed = match &viewer_follows {
            Some(v) => contains_uid(v, r.uid),
            None => false,
        };
        data.push(Followship {
            uid: r.uid,
            username: r.username.clone(),
            email: r.email.clone(),
            followedByMe: followed,
            time: r.time,
        });
        k = k + 1;
    }
    FollowshipResponse { code: 0, data, pageCount: page_count }
}

} // verus!
