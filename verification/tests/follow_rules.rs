use hellojudge_core::follow::{
    generate_followship_list, page_count, page_index, toggle_follow_state, FollowRow, FollowToggle,
    FollowerColumn, FollowshipQuery, GetFolloweeListRequest, GetFollowerListRequest, ResultCol,
};
use hellojudge_core::follow::{run_column_calls, ColumnCall};

const ALL: [ResultCol; 6] = [
    ResultCol::Target,
    ResultCol::Source,
    ResultCol::Username,
    ResultCol::Email,
    ResultCol::Time,
    ResultCol::SelfFollowed,
];

#[test]
fn result_columns_iterate_forward_in_order() {
    let mut it = ResultCol::iter();
    assert_eq!(it.len(), 6);
    let mut seen = Vec::new();
    while let Some(c) = it.next() {
        seen.push(c);
    }
    assert_eq!(seen, ALL.to_vec());
    assert_eq!(it.next(), None);
    assert_eq!(it.size_hint(), (0, Some(0)));
}

#[test]
fn result_columns_iterate_from_both_ends() {
    let mut it = ResultCol::iter();
    assert_eq!(it.next_back(), Some(ResultCol::SelfFollowed));
    assert_eq!(it.next(), Some(ResultCol::Target));
    assert_eq!(it.next_back(), Some(ResultCol::Time));
    assert_eq!(it.size_hint(), (3, Some(3)));
    assert_eq!(it.nth(1), Some(ResultCol::Username));
    assert_eq!(it.len(), 1);
    let copy = it.clone();
    assert_eq!(it.next(), Some(ResultCol::Email));
    assert_eq!(it.next(), None);
    assert_eq!(it.next_back(), None);
    assert_eq!(copy.len(), 1);
}

#[test]
fn result_column_nth_past_the_end() {
    let mut it = ResultCol::iter();
    assert_eq!(it.nth(6), None);
    assert_eq!(it.len(), 0);
    let mut it = ResultCol::iter();
    assert_eq!(it.nth(5), Some(ResultCol::SelfFollowed));
    assert_eq!(it.next(), None);
    let mut it = ResultCol::iter();
    assert_eq!(it.nth(usize::MAX), None);
    assert_eq!(it.next_back(), None);
}

#[test]
fn result_columns_mixed_calls_stay_distinct_and_end_in_none() {
    let mut it = ResultCol::iter();
    let mut out = Vec::new();
    out.push(it.nth(1));
    out.push(it.next_back());
    out.push(it.next());
    out.push(it.nth(0));
    assert_eq!(it.len(), 1);
    out.push(it.next_back());
    out.push(it.next());
    out.push(it.nth(0));
    out.push(it.next_back());
    assert_eq!(
        out,
        vec![
            Some(ResultCol::Source),
            Some(ResultCol::SelfFollowed),
            Some(ResultCol::Username),
            Some(ResultCol::Email),
            Some(ResultCol::Time),
            None,
            None,
            None,
        ]
    );
    assert_eq!(it.len(), 0);
    let mut it = ResultCol::iter();
    assert_eq!(it.nth(2), Some(ResultCol::Username));
    assert_eq!(it.nth(3), None);
    assert_eq!(it.len(), 0);
    assert_eq!(it.next_back(), None);
}

#[test]
fn replayed_column_calls_match_step_by_step_calls() {
    let calls = vec![
        ColumnCall::Nth(1),
        ColumnCall::NextBack,
        ColumnCall::Next,
        ColumnCall::Nth(0),
        ColumnCall::NextBack,
        ColumnCall::Next,
        ColumnCall::NextBack,
    ];
    let (out, it) = run_column_calls(&calls);
    assert_eq!(
        out,
        vec![
            Some(ResultCol::Source),
            Some(ResultCol::SelfFollowed),
            Some(ResultCol::Username),
            Some(ResultCol::Email),
            Some(ResultCol::Time),
            None,
            None,
        ]
    );
    assert_eq!(it.len(), 0);
    let (out, it) = run_column_calls(&vec![ColumnCall::NextBack, ColumnCall::NextBack]);
    assert_eq!(out, vec![Some(ResultCol::SelfFollowed), Some(ResultCol::Time)]);
    assert_eq!(it.len(), 4);
    let (out, it) = run_column_calls(&Vec::new());
    assert!(out.is_empty());
    assert_eq!(it.len(), 6);
}

#[test]
fn result_column_lookup_and_names() {
    let it = ResultCol::iter();
    for (i, c) in ALL.iter().enumerate() {
        assert_eq!(it.get(i), Some(*c));
    }
    assert_eq!(it.get(6), None);
    let names: Vec<String> = ALL.iter().map(|c| c.unquoted()).collect();
    assert_eq!(names, vec!["target", "source", "username", "email", "time", "self_followed"]);
}

#[test]
fn toggle_follow_decisions() {
    assert_eq!(toggle_follow_state::decide(3, 3, false, 0, 10), FollowToggle::RejectSelf);
    assert_eq!(toggle_follow_state::decide(3, 4, true, 10, 10), FollowToggle::Unfollow);
    assert_eq!(toggle_follow_state::decide(3, 4, false, 10, 10), FollowToggle::RejectLimit { limit: 10 });
    assert_eq!(toggle_follow_state::decide(3, 4, false, 9, 10), FollowToggle::Follow);
}

#[test]
fn toggle_follow_messages() {
    assert_eq!(FollowToggle::RejectSelf.message(), "禁止关注你自己!");
    assert_eq!(FollowToggle::RejectLimit { limit: 200 }.message(), "你最多只能关注 200 人!");
    assert_eq!(FollowToggle::Follow.message(), "操作完成!");
    assert_eq!(FollowToggle::Unfollow.message(), "操作完成!");
}

#[test]
fn toggling_twice_restores_the_follow_set() {
    // Simulated follow set of user 1, with a limit of 2.
    let mut follows: Vec<i32> = vec![5];
    let limit = 2u64;
    for _ in 0..2 {
        let already = follows.contains(&9);
        match toggle_follow_state::decide(1, 9, already, follows.len() as u64, limit) {
            FollowToggle::Follow => follows.push(9),
            FollowToggle::Unfollow => follows.retain(|&t| t != 9),
            other => panic!("unexpected {:?}", other),
        }
    }
    assert_eq!(follows, vec![5]);
}

#[test]
fn page_count_rounds_up() {
    assert_eq!(page_count(0, 20), 0);
    assert_eq!(page_count(1, 20), 1);
    assert_eq!(page_count(20, 20), 1);
    assert_eq!(page_count(21, 20), 2);
    assert_eq!(page_count(u64::MAX, 1), u64::MAX);
    assert_eq!(page_count(u64::MAX, 2), u64::MAX / 2 + 1);
}

#[test]
fn page_index_is_zero_based() {
    assert_eq!(page_index(None), 0);
    assert_eq!(page_index(Some(1)), 0);
    assert_eq!(page_index(Some(3)), 2);
    assert_eq!(page_index(Some(-1)), (-1i32 as usize) - 1);
    assert_eq!(page_index(Some(i32::MIN)), (i32::MIN as usize) - 1);
}

#[test]
fn list_requests_pick_their_query() {
    let q = GetFollowerListRequest { target: 8, page: None }.query();
    assert_eq!(q, FollowshipQuery::FollowingSelf(8));
    assert_eq!(q.listed_column(), FollowerColumn::Source);
    assert_eq!(q.filter(), (FollowerColumn::Target, 8));
    let q = GetFolloweeListRequest { source: 2, page: Some(3) }.query();
    assert_eq!(q, FollowshipQuery::SelfFollowing(2));
    assert_eq!(q.listed_column(), FollowerColumn::Target);
    assert_eq!(q.filter(), (FollowerColumn::Source, 2));
}

fn row(uid: i32, name: &str) -> FollowRow {
    FollowRow { uid, username: name.to_string(), email: format!("{}@x.org", name), time: 1700000000 + uid as i64 }
}

#[test]
fn followship_list_marks_whom_the_viewer_follows() {
    let rows = vec![row(1, "a"), row(2, "b"), row(3, "c")];
    let resp = generate_followship_list(rows.clone(), Some(vec![3, 1]), 4);
    assert_eq!(resp.code, 0);
    assert_eq!(resp.pageCount, 4);
    let marks: Vec<(i32, bool)> = resp.data.iter().map(|f| (f.uid, f.followedByMe)).collect();
    assert_eq!(marks, vec![(1, true), (2, false), (3, true)]);
    assert_eq!(resp.data[1].username, "b");
    assert_eq!(resp.data[1].email, "b@x.org");
    assert_eq!(resp.data[2].time, 1700000003);
}

#[test]
fn followship_list_without_viewer_marks_nothing() {
    let resp = generate_followship_list(vec![row(1, "a"), row(2, "b")], None, 1);
    assert!(resp.data.iter().all(|f| !f.followedByMe));
    assert_eq!(generate_followship_list(Vec::new(), None, 0).data.len(), 0);
}
