//! The user profile page and profile edits.

use vstd::prelude::*;
use crate::password::{argon2_hash, is_argon2id_hash_of, within_hash_limit};
use crate::pattern::{email_looks_valid, email_pattern, regex_compiles, regex_finds_match, username_matches};
use crate::permission_group::{text_set, GroupSummary};
use crate::text::{chars_of, clone_texts, decimal, push_char, replace_all, replace_text, text_eq, u64_to_decimal};

verus! {

// ---------------------------------------------------------------------------
// Reading a profile.
// ---------------------------------------------------------------------------

/// The body of a profile request.
#[derive(Debug, Clone, Copy, PartialEq, Eq)]
pub struct GetUserProfileRequest {
    pub uid: i32,
}

/// A contest result in a user's rating history.
#[derive(Debug, Clone, PartialEq)]
pub struct RatingHistoryEntry {
    pub result: i32,
    pub contest_id: i32,
    pub contest_name: String,
}

/// A team a user belongs to.
#[derive(Debug, Clone, PartialEq)]
pub struct JoinedTeamEntry {
    pub id: i32,
    pub name: String,
}

/// The profile page of a user.
#[derive(Debug, Clone, PartialEq)]
pub struct GetUserProfileResponse {
    pub id: i32,
    pub banned: i8,
    pub username: String,
    pub description: String,
    pub email: String,
    pub register_time: String,
    pub rating: i32,
    pub rating_history: Vec<RatingHistoryEntry>,
    pub permission_group: String,
    pub permissions: Vec<String>,
    pub phone_verified: bool,
    pub following: bool,
    pub phone_number: Option<String>,
    pub ac_problems: Vec<i32>,
    pub joined_teams: Vec<JoinedTeamEntry>,
    pub group_name: String,
    pub group_permissions: Vec<String>,
    pub managable: bool,
    pub can_set_admin: bool,
}

/// The stored fields of a user that the profile page shows; the
/// registration time is seconds and nanoseconds since the epoch.
#[derive(Debug, Clone, PartialEq)]
pub struct UserRecord {
    pub id: i32,
    pub banned: bool,
    pub username: String,
    pub description: String,
    pub email: String,
    pub register_secs: i64,
    pub register_nanos: u32,
    pub rating: i32,
    pub permission_group: String,
    pub permissions: Vec<String>,
    pub phone_number: Option<String>,
    pub phone_verified: bool,
}

/// Whether chrono has a date-time for these seconds and nanoseconds since the epoch.
pub uninterp spec fn naive_datetime_exists(secs: i64, nanos: u32) -> bool;

/// How chrono's `NaiveDateTime` displays that date-time in UTC.
pub uninterp spec fn naive_datetime_text(secs: i64, nanos: u32) -> Seq<char>;

/// Renders a UTC date-time as `NaiveDateTime`'s `Display` does.
///
/// Trusted: `DateTime::from_timestamp`, `DateTime::naive_utc` and
/// `NaiveDateTime`'s `Display`. The contract claims that the conversion fails
/// exactly when `naive_datetime_exists` is false and otherwise yields
/// `naive_datetime_text`, a function of the two numbers alone.
#[verifier::external_body]
fn datetime_text(secs: i64, nanos: u32) -> (res: Option<String>)
    ensures
        res is Some <==> naive_datetime_exists(secs, nanos),
        res matches Some(s) ==> s@ == naive_datetime_text(secs, nanos),
{
    match chrono::DateTime::from_timestamp(secs, nanos) {
        Some(t) => Some(t.naive_utc().to_string()),
        None => None,
    }
}

/// A phone number with all but its first three and its characters from the
/// eighth on replaced by `*`.
pub open spec fn masked(phone: Seq<char>) -> Seq<char> {
    Seq::new(phone.len(), |i: int| if i <= 2 || i >= 7 { phone[i] } else { '*' })
}

/// The phone number a profile shows: masked, and only once it is verified.
pub fn displayed_phone_number(verified: bool, phone: &Option<String>) -> (res: Option<String>)
    ensures
        !verified ==> res is None,
        verified ==> (match *phone {
            None => res is None,
            Some(p) => res is Some && res->0@ == masked(p@),
        }),
{
    if !verified {
        return None;
    }
    match phone {
        None => None,
        Some(p) => {
            let cs = chars_of(p.as_str());
            let mut out = String::new();
            let mut i: usize = 0;
            while i < cs.len()
                invariant
                    cs@ == p@,
                    i <= cs.len(),
                    out@ == masked(p@).take(i as int),
                decreases cs.len() - i,
            {
                if i <= 2 || i >= 7 {
                    push_char(&mut out, cs[i]);
                } else {
                    push_char(&mut out, '*');
                }
                i = i + 1;
                assert(out@ =~= masked(p@).take(i as int));
            }
            assert(masked(p@).take(cs.len() as int) =~= masked(p@));
            Some(out)
        },
    }
}

/// What the profile page shows about the viewer's rights, when logged in.
#[derive(Debug, Clone, Copy, PartialEq, Eq)]
pub struct ViewerRights {
    /// The viewer holds `permission.manage`.
    pub can_set_admin: bool,
    /// The viewer holds `user.manage`.
    pub managable: bool,
}

/// The registration time of a profile could not be rendered.
#[derive(Debug, Clone, Copy, PartialEq, Eq)]
pub struct InvalidRegisterTime;

/// Assembles a user's profile page. `viewer` is `None` for an anonymous
/// viewer, who never follows anyone; otherwise `following` tells whether the
/// viewer follows the user.
pub fn get_user_profile(
    user: UserRecord,
    following: bool,
    ac_problems: Vec<i32>,
    joined_teams: Vec<JoinedTeamEntry>,
    rating_history: Vec<RatingHistoryEntry>,
    group: GroupSummary,
    viewer: Option<ViewerRights>,
) -> (res: Result<GetUserProfileResponse, InvalidRegisterTime>)
    ensures
        !naive_datetime_exists(user.register_secs, user.register_nanos) ==> res is Err,
        naive_datetime_exists(user.register_secs, user.register_nanos) ==> res is Ok && ({
            let r = res->Ok_0;
            &&& r.id == user.id
            &&& r.banned == (if user.banned { 1i8 } else { 0i8 })
            &&& r.username == user.username
            &&& r.description == user.description
            &&& r.email == user.email
            &&& r.register_time@ == naive_datetime_text(user.register_secs, user.register_nanos)
            &&& r.rating == user.rating
            &&& r.rating_history == rating_history
            &&& r.permission_group == user.permission_group
            &&& r.permissions == user.permissions
            &&& r.phone_verified == user.phone_verified
            &&& r.following == (following && viewer is Some)
            &&& (!user.phone_verified || user.phone_number is None ==> r.phone_number is None)
            &&& (user.phone_verified && user.phone_number is Some ==> r.phone_number is Some
                && r.phone_number->0@ == masked(user.phone_number->0@))
            &&& r.ac_problems == ac_problems
            &&& r.joined_teams == joined_teams
            &&& r.group_name == group.name
            &&& r.group_permissions == group.permissions
            &&& r.can_set_admin == (viewer matches Some(v) && v.can_set_admin)
            &&& r.managable == (viewer matches Some(v) && v.managable)
        }),
{
    let register_time = match datetime_text(user.register_secs, user.register_nanos) {
        None => { return Err(InvalidRegisterTime); },
        Some(t) => t,
    };
    let phone_number = displayed_phone_number(user.phone_verified, &user.phone_number);
    let following = following && viewer.is_some();
    let (can_set_admin, managable) = match viewer {
        Some(v) => (v.can_set_admin, v.managable),
        None => (false, false),
    };
    Ok(GetUserProfileResponse {
        id: user.id,
        banned: if user.banned { 1 } else { 0 },
        username: user.username,
        description: user.description,
        email: user.email,
        register_time,
        rating: user.rating,
        rating_history,
        permission_group: user.permission_group,
        permissions: user.permissions,
        phone_verified: user.phone_verified,
        following,
        phone_number,
        ac_problems,
        joined_teams,
        group_name: group.name,
        group_permissions: group.permissions,
        managable,
        can_set_admin,
    })
}


// ---------------------------------------------------------------------------
// Editing a profile.
// ---------------------------------------------------------------------------

/// The body of a profile edit: the account and the new profile as JSON.
#[derive(Debug, Clone, PartialEq)]
pub struct UpdateProfileRequest {
    pub uid: i32,
    pub data: String,
}

/// The new profile of an edit.
#[derive(Debug, Clone, PartialEq)]
pub struct UpdateProfileForm {
    pub username: String,
    pub email: String,
    pub description: String,
    pub will_change_password: bool,
    pub new_password: String,
    /// `1` bans the account; any other value lifts a ban.
    pub banned: i8,
    pub permissions: Vec<String>,
    pub permission_group: String,
}

/// The stored fields of the edited account that an edit checks against.
#[derive(Debug, Clone, PartialEq)]
pub struct EditedUser {
    pub permission_group: String,
    pub permissions: Vec<String>,
    pub banned: bool,
    pub email: String,
}

/// What the edit handler has learned so far; `None` marks a fact it has
/// not looked up yet.
#[derive(Debug, Clone, PartialEq)]
pub struct UpdateProfileFacts {
    /// The session's user id, if logged in.
    pub viewer: Option<i32>,
    /// The account row read for the edit; `Some(None)` if there is none.
    pub edited: Option<Option<EditedUser>>,
    /// Whether the viewer holds `user.manage`.
    pub viewer_manages_users: Option<bool>,
    /// The new profile, once the request's JSON is decoded.
    pub form: Option<UpdateProfileForm>,
    /// Whether the viewer holds `permission.manage`.
    pub viewer_manages_permissions: Option<bool>,
    /// Whether the requested permission group exists.
    pub group_exists: Option<bool>,
}

/// The settings a profile edit reads.
#[derive(Debug, Clone, PartialEq)]
pub struct ProfileSettings {
    pub username_pattern: String,
}

/// What an accepted edit stores.
#[derive(Debug, Clone, PartialEq)]
pub struct ProfileUpdate {
    pub uid: i32,
    pub permission_group: String,
    pub permissions: Vec<String>,
    pub description: String,
    pub banned: bool,
    /// A new password hash; storing one also ends the account's other sessions.
    pub password_hash: Option<String>,
    /// A new address to confirm by e-mail before it is stored.
    pub new_email: Option<String>,
}

/// How a profile edit ends.
#[derive(Debug, Clone, PartialEq)]
pub enum UpdateProfileOutcome {
    /// Nobody is logged in.
    Unauthorized,
    NoSuchUser,
    /// The viewer edits another account without `user.manage`.
    Forbidden,
    /// The configured user-name pattern does not compile: an internal error.
    BadPattern,
    /// The fixed e-mail pattern does not compile: an internal error.
    BadEmailPattern,
    NameRejected,
    EmailRejected,
    GroupChangeForbidden,
    PermissionChangeForbidden,
    NoSuchGroup,
    BanChangeForbidden,
    /// Hashing the new password failed: an internal error.
    HashFailed,
    Apply(ProfileUpdate),
}

/// What the edit handler does next.
#[derive(Debug, Clone, PartialEq)]
pub enum UpdateProfileStep {
    NeedEditedUser,
    NeedViewerManagesUsers,
    NeedForm,
    NeedViewerManagesPermissions,
    NeedGroupExists,
    Done(UpdateProfileOutcome),
}

impl UpdateProfileOutcome {
    /// The message shown for a refused edit: `pattern` is the configured
    /// user-name pattern and `group` the requested permission group. Empty for
    /// internal errors and accepted edits.
    pub open spec fn message_spec(self, pattern: Seq<char>, group: Seq<char>) -> Seq<char> {
        match self {
            UpdateProfileOutcome::Unauthorized => "Please login first!"@,
            UpdateProfileOutcome::NoSuchUser => "用户不存在!"@,
            UpdateProfileOutcome::Forbidden => "你无权进行此操作！"@,
            UpdateProfileOutcome::NameRejected => "用户名需要满足正则表达式: "@ + pattern,
            UpdateProfileOutcome::EmailRejected => "请输入合法邮箱！"@,
            UpdateProfileOutcome::GroupChangeForbidden => "你没有权限更改用户所属权限组！"@,
            UpdateProfileOutcome::PermissionChangeForbidden => "你没有权限更改用户权限！"@,
            UpdateProfileOutcome::NoSuchGroup => "权限组 `"@ + group + "` 不存在！"@,
            UpdateProfileOutcome::BanChangeForbidden => "你没有权限调整用户的封禁状态!"@,
            _ => Seq::empty(),
        }
    }

    /// The message shown for a refused edit.
    pub fn message(&self, pattern: &str, group: &str) -> (res: String)
        ensures
            res@ == self.message_spec(pattern@, group@),
    {
        match self {
            UpdateProfileOutcome::Unauthorized => String::from_str("Please login first!"),
            UpdateProfileOutcome::NoSuchUser => String::from_str("用户不存在!"),
            UpdateProfileOutcome::Forbidden => String::from_str("你无权进行此操作！"),
            UpdateProfileOutcome::NameRejected => {
                let mut s = String::from_str("用户名需要满足正则表达式: ");
                s.append(pattern);
                s
            },
            UpdateProfileOutcome::EmailRejected => String::from_str("请输入合法邮箱！"),
            UpdateProfileOutcome::GroupChangeForbidden => String::from_str("你没有权限更改用户所属权限组！"),
            UpdateProfileOutcome::PermissionChangeForbidden => String::from_str("你没有权限更改用户权限！"),
            UpdateProfileOutcome::NoSuchGroup => {
                let mut s = String::from_str("权限组 `");
                s.append(group);
                s.append("` 不存在！");
                s
            },
            UpdateProfileOutcome::BanChangeForbidden => String::from_str("你没有权限调整用户的封禁状态!"),
            _ => String::new(),
        }
    }
}

/// The e-mail that confirms a new address: the configured template with
/// `{change_token}` replaced by the token.
pub fn email_change_mail_body(template: &str, token: &str) -> (res: String)
    ensures
        res@ == replace_all(template@, "{change_token}"@, token@),
{
    proof { reveal_strlit("{change_token}"); }
    replace_text(template, "{change_token}", token)
}

/// The message shown after an accepted edit, quoting the new address and how
/// long its confirmation link lasts when the address changed.
pub fn profile_updated_message(new_email: &Option<String>, expire_seconds: u64) -> (res: String)
    ensures
        res@ == (match *new_email {
            Some(e) => "您修改了邮箱，一封新的验证邮件已经发送到了 "@ + e@ + "，"@
                + decimal(expire_seconds as nat) + " 秒内有效。"@,
            None => "修改完成!"@,
        }),
{
    match new_email {
        Some(e) => {
            let mut s = String::from_str("您修改了邮箱，一封新的验证邮件已经发送到了 ");
            s.append(e.as_str());
            s.append("，");
            let n = u64_to_decimal(expire_seconds);
            s.append(n.as_str());
            s.append(" 秒内有效。");
            s
        },
        None => String::from_str("修改完成!"),
    }
}

/// Whether two lists hold the same texts, ignoring order and repeats.
pub fn same_text_set(a: &Vec<String>, b: &Vec<String>) -> (res: bool)
    ensures
        res == (text_set(a@) == text_set(b@)),
{
    let mut i: usize = 0;
    while i < a.len()
        invariant
            i <= a.len(),
            forall|j: int| 0 <= j < i ==> text_set(b@).contains(#[trigger] a@[j]@),
        decreases a.len() - i,
    {
        if !contains(b, a[i].as_str()) {
            assert(text_set(a@).contains(a@[i as int]@));
            return false;
        }
        i = i + 1;
    }
    let mut k: usize = 0;
    while k < b.len()
        invariant
            k <= b.len(),
            forall|j: int| 0 <= j < a.len() ==> text_set(b@).contains(#[trigger] a@[j]@),
            forall|j: int| 0 <= j < k ==> text_set(a@).contains(#[trigger] b@[j]@),
        decreases b.len() - k,
    {
        if !contains(a, b[k].as_str()) {
            assert(text_set(b@).contains(b@[k as int]@));
            return false;
        }
        k = k + 1;
    }
    assert forall|p: Seq<char>| text_set(a@).contains(p) <==> text_set(b@).contains(p) by {
        if text_set(a@).contains(p) {
            let w = choose|w: int| 0 <= w < a@.len() && #[trigger] a@[w]@ == p;
            assert(text_set(b@).contains(a@[w]@));
        }
        if text_set(b@).contains(p) {
            let w = choose|w: int| 0 <= w < b@.len() && #[trigger] b@[w]@ == p;
            assert(text_set(a@).contains(b@[w]@));
        }
    }
    assert(text_set(a@) =~= text_set(b@));
    true
}

fn contains(v: &Vec<String>, s: &str) -> (res: bool)
    ensures
        res == text_set(v@).contains(s@),
{
    let mut i: usize = 0;
    while i < v.len()
        invariant
            i <= v.len(),
            forall|j: int| 0 <= j < i ==> #[trigger] v@[j]@ != s@,
        decreases v.len() - i,
    {
        if text_eq(v[i].as_str(), s) {
            assert(v@[i as int]@ == s@);
            return true;
        }
        i = i + 1;
    }
    false
}

/// The next step of an edit, checking in order: a login, the edited
/// account, the right to edit another account, the user name and e-mail
/// patterns, the right to change the group and permissions, the group's
/// existence, and the right to change a ban. `None` when the edit is accepted.
pub open spec fn update_profile_next(settings: ProfileSettings, target_uid: i32, facts: UpdateProfileFacts) -> Option<UpdateProfileStep> {
    if facts.viewer is None {
        Some(UpdateProfileStep::Done(UpdateProfileOutcome::Unauthorized))
    } else if facts.edited is None {
        Some(UpdateProfileStep::NeedEditedUser)
    } else if facts.edited->0 is None {
        Some(UpdateProfileStep::Done(UpdateProfileOutcome::NoSuchUser))
    } else {
        let viewer = facts.viewer->0;
        let edited = facts.edited->0->0;
        if target_uid != viewer && facts.viewer_manages_users is None {
            Some(UpdateProfileStep::NeedViewerManagesUsers)
        } else if target_uid != viewer && facts.viewer_manages_users == Some(false) {
            Some(UpdateProfileStep::Done(UpdateProfileOutcome::Forbidden))
        } else if facts.form is None {
            Some(UpdateProfileStep::NeedForm)
        } else {
            let form = facts.form->0;
            if !regex_compiles(settings.username_pattern@) {
                Some(UpdateProfileStep::Done(UpdateProfileOutcome::BadPattern))
            } else if !regex_finds_match(settings.username_pattern@, form.username@) {
                Some(UpdateProfileStep::Done(UpdateProfileOutcome::NameRejected))
            } else if !regex_compiles(email_pattern()) {
                Some(UpdateProfileStep::Done(UpdateProfileOutcome::BadEmailPattern))
            } else if !regex_finds_match(email_pattern(), form.email@) {
                Some(UpdateProfileStep::Done(UpdateProfileOutcome::EmailRejected))
            } else if facts.viewer_manages_permissions is None {
                Some(UpdateProfileStep::NeedViewerManagesPermissions)
            } else if facts.viewer_manages_permissions == Some(false) && form.permission_group@ != edited.permission_group@ {
                Some(UpdateProfileStep::Done(UpdateProfileOutcome::GroupChangeForbidden))
            } else if facts.viewer_manages_permissions == Some(false)
                && text_set(form.permissions@) != text_set(edited.permissions@) {
                Some(UpdateProfileStep::Done(UpdateProfileOutcome::PermissionChangeForbidden))
            } else if facts.group_exists is None {
                Some(UpdateProfileStep::NeedGroupExists)
            } else if facts.group_exists == Some(false) {
                Some(UpdateProfileStep::Done(UpdateProfileOutcome::NoSuchGroup))
            } else if edited.banned != (form.banned == 1) && facts.viewer_manages_users is None {
                Some(UpdateProfileStep::NeedViewerManagesUsers)
            } else if edited.banned != (form.banned == 1) && facts.viewer_manages_users == Some(false) {
                Some(UpdateProfileStep::Done(UpdateProfileOutcome::BanChangeForbidden))
            } else {
                None
            }
        }
    }
}

/// Whether `u` is the update an accepted edit of `target_uid` stores.
pub open spec fn update_of_form(u: ProfileUpdate, target_uid: i32, edited: EditedUser, form: UpdateProfileForm) -> bool {
    &&& u.uid == target_uid
    &&& u.permission_group == form.permission_group
    &&& u.permissions@ == form.permissions@
    &&& u.description == form.description
    &&& u.banned == (form.banned == 1)
    &&& (form.will_change_password <==> u.password_hash is Some)
    &&& (u.password_hash matches Some(h) ==> is_argon2id_hash_of(form.new_password@, h@))
    &&& (form.email@ != edited.email@ <==> u.new_email is Some)
    &&& (u.new_email matches Some(e) ==> e == form.email)
}

/// An accepted edit changes the account's permission group or permissions
/// only for a viewer with `permission.manage`, edits another account or
/// changes a ban only for a viewer with `user.manage`, stores a user name and
/// a new address only after they passed their patterns, and always puts the
/// account into a permission group that exists, whatever the viewer's rights.
pub proof fn lemma_accepted_edit_respects_rights(settings: ProfileSettings, target_uid: i32, facts: UpdateProfileFacts, u: ProfileUpdate)
    requires
        update_profile_next(settings, target_uid, facts) is None,
        facts.edited is Some && facts.edited->0 is Some && facts.form is Some,
        update_of_form(u, target_uid, facts.edited->0->0, facts.form->0),
    ensures
        facts.viewer is Some,
        facts.viewer_manages_permissions != Some(true) ==> u.permission_group@ == facts.edited->0->0.permission_group@
            && text_set(u.permissions@) == text_set(facts.edited->0->0.permissions@),
        target_uid != facts.viewer->0 ==> facts.viewer_manages_users == Some(true),
        u.banned != facts.edited->0->0.banned ==> facts.viewer_manages_users == Some(true),
        u.new_email matches Some(e) ==> regex_finds_match(email_pattern(), e@),
        regex_finds_match(settings.username_pattern@, facts.form->0.username@),
        facts.group_exists == Some(true),
{
    if facts.viewer_manages_permissions != Some(true) {
        assert(facts.viewer_manages_permissions is Some);
        assert(facts.viewer_manages_permissions == Some(false));
        assert(u.permissions@ == facts.form->0.permissions@);
        assert(text_set(u.permissions@) == text_set(facts.form->0.permissions@));
    }
}

/// The next step of an edit of account `target_uid`.
pub fn update_profile(settings: &ProfileSettings, target_uid: i32, facts: &UpdateProfileFacts) -> (res: UpdateProfileStep)
    ensures
        match update_profile_next(*settings, target_uid, *facts) {
            Some(step) => res == step,
            None => if !facts.form->0.will_change_password || within_hash_limit(facts.form->0.new_password@) {
                res is Done && res->0 is Apply
                    && update_of_form(res->0->0, target_uid, facts.edited->0->0, facts.form->0)
            } else {
                res == UpdateProfileStep::Done(UpdateProfileOutcome::HashFailed)
            },
        },
        res matches UpdateProfileStep::Done(UpdateProfileOutcome::Apply(u)) ==> {
            &&& facts.viewer is Some
            &&& facts.group_exists == Some(true)
            &&& facts.form is Some
            &&& u.permission_group == facts.form->0.permission_group
            &&& regex_finds_match(settings.username_pattern@, facts.form->0.username@)
            &&& regex_finds_match(email_pattern(), facts.form->0.email@)
            &&& (target_uid != facts.viewer->0 ==> facts.viewer_manages_users == Some(true))
        },
{
    let viewer = match facts.viewer {
        None => { return UpdateProfileStep::Done(UpdateProfileOutcome::Unauthorized); },
        Some(v) => v,
    };
    let edited = match &facts.edited {
        None => { return UpdateProfileStep::NeedEditedUser; },
        Some(None) => { return UpdateProfileStep::Done(UpdateProfileOutcome::NoSuchUser); },
        Some(Some(e)) => e,
    };
    if target_uid != viewer {
        match facts.viewer_manages_users {
            None => { return UpdateProfileStep::NeedViewerManagesUsers; },
            Some(false) => { return UpdateProfileStep::Done(UpdateProfileOutcome::Forbidden); },
            Some(true) => {},
        }
    }
    let form = match &facts.form {
        None => { return UpdateProfileStep::NeedForm; },
        Some(f) => f,
    };
    match username_matches(settings.username_pattern.as_str(), form.username.as_str()) {
        Err(_) => { return UpdateProfileStep::Done(UpdateProfileOutcome::BadPattern); },
        Ok(false) => { return UpdateProfileStep::Done(UpdateProfileOutcome::NameRejected); },
        Ok(true) => {},
    }
    match email_looks_valid(form.email.as_str()) {
        None => { return UpdateProfileStep::Done(UpdateProfileOutcome::BadEmailPattern); },
        Some(false) => { return UpdateProfileStep::Done(UpdateProfileOutcome::EmailRejected); },
        Some(true) => {},
    }
    let manages_permissions = match facts.viewer_manages_permissions {
        None => { return UpdateProfileStep::NeedViewerManagesPermissions; },
        Some(b) => b,
    };
    if !manages_permissions {
        if !text_eq(form.permission_group.as_str(), edited.permission_group.as_str()) {
            return UpdateProfileStep::Done(UpdateProfileOutcome::GroupChangeForbidden);
        }
        if !same_text_set(&form.permissions, &edited.permissions) {
            return UpdateProfileStep::Done(UpdateProfileOutcome::PermissionChangeForbidden);
        }
    }
    match facts.group_exists {
        None => { return UpdateProfileStep::NeedGroupExists; },
        Some(false) => { return UpdateProfileStep::Done(UpdateProfileOutcome::NoSuchGroup); },
        Some(true) => {},
    }
    let wants_ban = form.banned == 1;
    if edited.banned != wants_ban {
        match facts.viewer_manages_users {
            None => { return UpdateProfileStep::NeedViewerManagesUsers; },
            Some(false) => { return UpdateProfileStep::Done(UpdateProfileOutcome::BanChangeForbidden); },
            Some(true) => {},
        }
    }
    let password_hash = if form.will_change_password {
        match argon2_hash(form.new_password.as_str()) {
            Err(_) => { return UpdateProfileStep::Done(UpdateProfileOutcome::HashFailed); },
            Ok(h) => Some(h),
        }
    } else {
        None
    };
    let new_email = if text_eq(form.email.as_str(), edited.email.as_str()) { None } else { Some(form.email.clone()) };
    UpdateProfileStep::Done(UpdateProfileOutcome::Apply(ProfileUpdate {
        uid: target_uid,
        permission_group: form.permission_group.clone(),
        permissions: clone_texts(&form.permissions),
        description: form.description.clone(),
        banned: wants_ban,
        password_hash,
        new_email,
    }))
}

} // verus!
