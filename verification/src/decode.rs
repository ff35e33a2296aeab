//! Typed decoding: from the JSON values of [`crate::json`] into the data
//! model, field for field. Every decoder says exactly which shapes it
//! accepts (`*_shape`) and what each field of the result is (`*_matches`).

use vstd::prelude::*;
use vstd::string::StrSliceExecFns;
use vstd::string::StringExecFns;
use crate::json::Jv;
use crate::json::JsonValue;
use crate::json::member_views;
use crate::json::views_of;
use crate::json::lemma_obj_view;
use crate::json::lemma_arr_view;
use crate::json::spec_parse_json;
use crate::json::parse_json;
use crate::model::Student;
use crate::model::Submission;
use crate::model::ParitcipationResult;
use crate::model::StudentParticipation;
use crate::model::Exercise;
use crate::model::Project;
use crate::model::ForDashboard;
use crate::model::RuntimeInfo;
use crate::model::JVMInfo;
use crate::model::JavaInfo;
use crate::model::BuildInfo;
use crate::model::LanguageFeature;
use crate::model::InfoRes;
use crate::text::all_digits;
use crate::text::dec_val;
use crate::text::digit_check;
use crate::text::digit_value;
use crate::text::lemma_dec_val_prefix;

verus! {

/// The first member of `ms` named `k`, if any.
pub open spec fn spec_obj_get(ms: Seq<(Seq<char>, Jv)>, k: Seq<char>) -> Option<Jv>
    decreases ms.len(),
{
    if ms.len() == 0 {
        None
    } else if ms[0].0 == k {
        Some(ms[0].1)
    } else {
        spec_obj_get(ms.drop_first(), k)
    }
}

#[verifier::opaque]
pub open spec fn jv_obj_get(v: Jv, k: Seq<char>) -> Option<Jv> {
    match v {
        Jv::Obj(ms) => spec_obj_get(ms, k),
        _ => None,
    }
}

#[verifier::opaque]
pub open spec fn jv_obj_str(v: Jv, k: Seq<char>) -> Option<Seq<char>> {
    match jv_obj_get(v, k) {
        Some(Jv::Str(t)) => Some(t),
        _ => None,
    }
}

#[verifier::opaque]
pub open spec fn jv_obj_bool(v: Jv, k: Seq<char>) -> Option<bool> {
    match jv_obj_get(v, k) {
        Some(Jv::Bool(b)) => Some(b),
        _ => None,
    }
}

/// The raw number token under `k`.
#[verifier::opaque]
pub open spec fn jv_obj_num(v: Jv, k: Seq<char>) -> Option<Seq<char>> {
    match jv_obj_get(v, k) {
        Some(Jv::Num(t)) => Some(t),
        _ => None,
    }
}

/// A number token read as an unsigned 32-bit count: plain digits whose
/// value fits.
pub open spec fn u32_of_token(tok: Seq<char>) -> Option<u32> {
    if tok.len() > 0 && all_digits(tok) && dec_val(tok) <= 4294967295 {
        Some(dec_val(tok) as u32)
    } else {
        None
    }
}

#[verifier::opaque]
pub open spec fn jv_obj_u32(v: Jv, k: Seq<char>) -> Option<u32> {
    match jv_obj_get(v, k) {
        Some(Jv::Num(t)) => u32_of_token(t),
        _ => None,
    }
}

/// A field that may be absent or `null`: `Some(None)` then; `None` only
/// for a value of the wrong kind.
#[verifier::opaque]
pub open spec fn jv_obj_opt_str(v: Jv, k: Seq<char>) -> Option<Option<Seq<char>>> {
    match v {
        Jv::Obj(ms) => match spec_obj_get(ms, k) {
            None => Some(None),
            Some(Jv::Null) => Some(None),
            Some(Jv::Str(t)) => Some(Some(t)),
            Some(_) => None,
        },
        _ => None,
    }
}

#[verifier::opaque]
pub open spec fn jv_obj_opt_bool(v: Jv, k: Seq<char>) -> Option<Option<bool>> {
    match v {
        Jv::Obj(ms) => match spec_obj_get(ms, k) {
            None => Some(None),
            Some(Jv::Null) => Some(None),
            Some(Jv::Bool(b)) => Some(Some(b)),
            Some(_) => None,
        },
        _ => None,
    }
}

#[verifier::opaque]
pub open spec fn jv_obj_arr(v: Jv, k: Seq<char>) -> Option<Seq<Jv>> {
    match jv_obj_get(v, k) {
        Some(Jv::Arr(es)) => Some(es),
        _ => None,
    }
}

/// Like `jv_obj_arr`, but an absent field counts as an empty array.
#[verifier::opaque]
pub open spec fn jv_obj_arr_default(v: Jv, k: Seq<char>) -> Option<Seq<Jv>> {
    match v {
        Jv::Obj(ms) => match spec_obj_get(ms, k) {
            None => Some(Seq::empty()),
            Some(Jv::Arr(es)) => Some(es),
            Some(_) => None,
        },
        _ => None,
    }
}

pub open spec fn str_of_jv(v: Jv) -> Option<Seq<char>> {
    match v {
        Jv::Str(t) => Some(t),
        _ => None,
    }
}

/// An array of strings under `k`, if every element is a string.
#[verifier::opaque]
pub open spec fn jv_obj_str_arr(v: Jv, k: Seq<char>) -> Option<Seq<Seq<char>>> {
    match jv_obj_get(v, k) {
        Some(Jv::Arr(es)) => if forall|i: int| 0 <= i < es.len() ==> str_of_jv(
            #[trigger] es[i],
        ) is Some {
            Some(Seq::new(es.len(), |i: int| str_of_jv(es[i]).unwrap()))
        } else {
            None
        },
        _ => None,
    }
}

pub open spec fn opt_str_matches(a: Option<String>, b: Option<Seq<char>>) -> bool {
    match (a, b) {
        (Some(x), Some(y)) => x@ == y,
        (None, None) => true,
        _ => false,
    }
}

pub open spec fn str_seq_matches(a: Seq<String>, b: Seq<Seq<char>>) -> bool {
    a.len() == b.len() && (forall|i: int| 0 <= i < a.len() ==> #[trigger] a[i]@ == b[i])
}

/// Character-for-character equality of two strings.
pub fn str_eq(a: &str, b: &str) -> (r: bool)
    ensures
        r == (a@ == b@),
{
    let na = a.unicode_len();
    let nb = b.unicode_len();
    if na != nb {
        return false;
    }
    let mut i: usize = 0;
    while i < na
        invariant
            0 <= i <= na,
            na == a@.len(),
            na == b@.len(),
            forall|j: int| 0 <= j < i ==> a@[j] == b@[j],
        decreases na - i,
    {
        if a.get_char(i) != b.get_char(i) {
            return false;
        }
        i = i + 1;
    }
    proof {
        assert(a@ =~= b@);
    }
    true
}

fn get_member<'a>(ms: &'a Vec<(String, JsonValue)>, k: &str) -> (r: Option<&'a JsonValue>)
    ensures
        match r {
            Some(w) => spec_obj_get(member_views(ms@), k@) == Some(w@),
            None => spec_obj_get(member_views(ms@), k@) is None,
        },
{
    proof {
        assert(member_views(ms@).skip(0) =~= member_views(ms@));
    }
    let mut i: usize = 0;
    while i < ms.len()
        invariant
            0 <= i <= ms@.len(),
            spec_obj_get(member_views(ms@), k@) == spec_obj_get(
                member_views(ms@).skip(i as int),
                k@,
            ),
        decreases ms@.len() - i,
    {
        proof {
            assert(member_views(ms@).skip(i as int)[0] == (ms@[i as int].0@, ms@[i as int].1@));
            assert(member_views(ms@).skip(i as int).drop_first() =~= member_views(ms@).skip(
                i as int + 1,
            ));
        }
        if str_eq(ms[i].0.as_str(), k) {
            return Some(&ms[i].1);
        }
        i = i + 1;
    }
    proof {
        assert(member_views(ms@).skip(i as int) =~= Seq::<(Seq<char>, Jv)>::empty());
    }
    None
}

/// The member of the object `v` named `k`.
pub(crate) fn get_val<'a>(v: &'a JsonValue, k: &str) -> (r: Option<&'a JsonValue>)
    ensures
        match r {
            Some(w) => jv_obj_get(v@, k@) == Some(w@),
            None => jv_obj_get(v@, k@) is None,
        },
{
    proof {
        reveal(jv_obj_get);
    }
    match v {
        JsonValue::Obj(ms) => {
            proof {
                lemma_obj_view(*ms);
            }
            get_member(ms, k)
        },
        _ => None,
    }
}

pub(crate) fn get_str(v: &JsonValue, k: &str) -> (r: Option<String>)
    ensures
        match r {
            Some(t) => jv_obj_str(v@, k@) == Some(t@),
            None => jv_obj_str(v@, k@) is None,
        },
{
    proof {
        reveal(jv_obj_str);
    }
    match get_val(v, k) {
        Some(w) => match w {
            JsonValue::Str(s) => Some(s.clone()),
            _ => None,
        },
        None => None,
    }
}

pub(crate) fn get_bool(v: &JsonValue, k: &str) -> (r: Option<bool>)
    ensures
        match r {
            Some(b) => jv_obj_bool(v@, k@) == Some(b),
            None => jv_obj_bool(v@, k@) is None,
        },
{
    proof {
        reveal(jv_obj_bool);
    }
    match get_val(v, k) {
        Some(w) => match w {
            JsonValue::Bool(b) => Some(*b),
            _ => None,
        },
        None => None,
    }
}

pub(crate) fn get_num(v: &JsonValue, k: &str) -> (r: Option<String>)
    ensures
        match r {
            Some(t) => jv_obj_num(v@, k@) == Some(t@),
            None => jv_obj_num(v@, k@) is None,
        },
{
    proof {
        reveal(jv_obj_num);
    }
    match get_val(v, k) {
        Some(w) => match w {
            JsonValue::Num(s) => Some(s.clone()),
            _ => None,
        },
        None => None,
    }
}

/// Reads a count: plain digits whose value fits in 32 bits.
fn parse_u32_digits(s: &str) -> (r: Option<u32>)
    ensures
        r == u32_of_token(s@),
{
    let n = s.unicode_len();
    if n == 0 {
        return None;
    }
    let mut v: u64 = 0;
    let mut i: usize = 0;
    proof {
        assert(s@.subrange(0, 0) =~= Seq::<char>::empty());
    }
    while i < n
        invariant
            0 <= i <= n,
            n == s@.len(),
            all_digits(s@.subrange(0, i as int)),
            v == dec_val(s@.subrange(0, i as int)),
            v <= 4294967295,
        decreases n - i,
    {
        let c = s.get_char(i);
        if !digit_check(c) {
            assert(!all_digits(s@));
            return None;
        }
        let d = digit_value(c) as u64;
        proof {
            assert(s@.subrange(0, i + 1).drop_last() =~= s@.subrange(0, i as int));
            assert(forall|j: int|
                0 <= j < i + 1 ==> crate::text::is_digit(#[trigger] s@.subrange(0, i + 1)[j]));
        }
        let next = v * 10 + d;
        if next > 4294967295 {
            proof {
                lemma_dec_val_prefix(s@, i + 1);
                assert(s@.take(i + 1) =~= s@.subrange(0, i + 1));
            }
            return None;
        }
        v = next;
        i = i + 1;
    }
    proof {
        assert(s@.subrange(0, i as int) =~= s@);
    }
    Some(v as u32)
}

pub(crate) fn get_u32(v: &JsonValue, k: &str) -> (r: Option<u32>)
    ensures
        r == jv_obj_u32(v@, k@),
{
    proof {
        reveal(jv_obj_u32);
    }
    match get_val(v, k) {
        Some(w) => match w {
            JsonValue::Num(tok) => parse_u32_digits(tok.as_str()),
            _ => None,
        },
        None => None,
    }
}

pub(crate) fn get_opt_str(v: &JsonValue, k: &str) -> (r: Option<Option<String>>)
    ensures
        match r {
            Some(Some(t)) => jv_obj_opt_str(v@, k@) == Some(Some(t@)),
            Some(None) => jv_obj_opt_str(v@, k@) == Some(None::<Seq<char>>),
            None => jv_obj_opt_str(v@, k@) is None,
        },
{
    proof {
        reveal(jv_obj_opt_str);
    }
    match v {
        JsonValue::Obj(ms) => {
            proof {
                lemma_obj_view(*ms);
            }
            match get_member(ms, k) {
                None => Some(None),
                Some(w) => match w {
                    JsonValue::Null => Some(None),
                    JsonValue::Str(s) => Some(Some(s.clone())),
                    _ => None,
                },
            }
        },
        _ => None,
    }
}

pub(crate) fn get_opt_bool(v: &JsonValue, k: &str) -> (r: Option<Option<bool>>)
    ensures
        match r {
            Some(b) => jv_obj_opt_bool(v@, k@) == Some(b),
            None => jv_obj_opt_bool(v@, k@) is None,
        },
{
    proof {
        reveal(jv_obj_opt_bool);
    }
    match v {
        JsonValue::Obj(ms) => {
            proof {
                lemma_obj_view(*ms);
            }
            match get_member(ms, k) {
                None => Some(None),
                Some(w) => match w {
                    JsonValue::Null => Some(None),
                    JsonValue::Bool(b) => Some(Some(*b)),
                    _ => None,
                },
            }
        },
        _ => None,
    }
}

pub(crate) fn get_arr<'a>(v: &'a JsonValue, k: &str) -> (r: Option<&'a Vec<JsonValue>>)
    ensures
        match r {
            Some(a) => jv_obj_arr(v@, k@) == Some(views_of(a@)),
            None => jv_obj_arr(v@, k@) is None,
        },
{
    proof {
        reveal(jv_obj_arr);
    }
    match get_val(v, k) {
        Some(w) => match w {
            JsonValue::Arr(a) => {
                proof {
                    lemma_arr_view(*a);
                }
                Some(a)
            },
            _ => None,
        },
        None => None,
    }
}

pub(crate) fn get_arr_default<'a>(v: &'a JsonValue, k: &str) -> (r: Option<Option<&'a Vec<JsonValue>>>)
    ensures
        match r {
            Some(Some(a)) => jv_obj_arr_default(v@, k@) == Some(views_of(a@)),
            Some(None) => jv_obj_arr_default(v@, k@) == Some(Seq::<Jv>::empty()),
            None => jv_obj_arr_default(v@, k@) is None,
        },
{
    proof {
        reveal(jv_obj_arr_default);
    }
    match v {
        JsonValue::Obj(ms) => {
            proof {
                lemma_obj_view(*ms);
            }
            match get_member(ms, k) {
                None => Some(None),
                Some(w) => match w {
                    JsonValue::Arr(a) => {
                        proof {
                            lemma_arr_view(*a);
                        }
                        Some(Some(a))
                    },
                    _ => None,
                },
            }
        },
        _ => None,
    }
}

pub(crate) fn get_str_arr(v: &JsonValue, k: &str) -> (r: Option<Vec<String>>)
    ensures
        match r {
            Some(out) => jv_obj_str_arr(v@, k@) is Some && str_seq_matches(
                out@,
                jv_obj_str_arr(v@, k@).unwrap(),
            ),
            None => jv_obj_str_arr(v@, k@) is None,
        },
{
    proof {
        reveal(jv_obj_str_arr);
    }
    match get_val(v, k) {
        None => None,
        Some(w) => match w {
            JsonValue::Arr(a) => {
                proof {
                    lemma_arr_view(*a);
                }
                let mut out: Vec<String> = Vec::new();
                let mut i: usize = 0;
                while i < a.len()
                    invariant
                        0 <= i <= a@.len(),
                        out@.len() == i,
                        jv_obj_get(v@, k@) == Some(Jv::Arr(views_of(a@))),
                        forall|j: int| 0 <= j < i ==> str_of_jv(#[trigger] views_of(a@)[j]) is Some,
                        forall|j: int|
                            0 <= j < i ==> #[trigger] out@[j]@ == str_of_jv(
                                views_of(a@)[j],
                            ).unwrap(),
                    decreases a@.len() - i,
                {
                    match &a[i] {
                        JsonValue::Str(s) => {
                            out.push(s.clone());
                        },
                        _ => {
                            proof {
                                reveal(jv_obj_str_arr);
                                assert(str_of_jv(views_of(a@)[i as int]) is None);
                            }
                            return None;
                        },
                    }
                    i = i + 1;
                }
                proof {
                    assert(jv_obj_str_arr(v@, k@) is Some);
                }
                Some(out)
            },
            _ => None,
        },
    }
}

pub open spec fn student_shape(v: Jv) -> bool {
    &&& jv_obj_u32(v, "id"@) is Some
    &&& jv_obj_str(v, "login"@) is Some
    &&& jv_obj_str(v, "firstName"@) is Some
    &&& jv_obj_str(v, "lastName"@) is Some
    &&& jv_obj_str(v, "email"@) is Some
    &&& jv_obj_bool(v, "activated"@) is Some
    &&& jv_obj_str(v, "langKey"@) is Some
    &&& jv_obj_str(v, "lastNotificationRead"@) is Some
    &&& jv_obj_str(v, "name"@) is Some
    &&& jv_obj_bool(v, "internal"@) is Some
    &&& jv_obj_str(v, "participantIdentifier"@) is Some
}

pub open spec fn student_matches(p: Student, v: Jv) -> bool {
    &&& p.id == jv_obj_u32(v, "id"@).unwrap()
    &&& p.login@ == jv_obj_str(v, "login"@).unwrap()
    &&& p.first_name@ == jv_obj_str(v, "firstName"@).unwrap()
    &&& p.last_name@ == jv_obj_str(v, "lastName"@).unwrap()
    &&& p.email@ == jv_obj_str(v, "email"@).unwrap()
    &&& p.activated == jv_obj_bool(v, "activated"@).unwrap()
    &&& p.lang_key@ == jv_obj_str(v, "langKey"@).unwrap()
    &&& p.last_notification_read@ == jv_obj_str(v, "lastNotificationRead"@).unwrap()
    &&& p.name@ == jv_obj_str(v, "name"@).unwrap()
    &&& p.internal == jv_obj_bool(v, "internal"@).unwrap()
    &&& p.participant_identifier@ == jv_obj_str(v, "participantIdentifier"@).unwrap()
}

/// Builds a `Student` from a decoded JSON value; `None` exactly when the
/// value does not have the shape `student_shape` asks for.
pub fn student_from_json(v: &JsonValue) -> (r: Option<Student>)
    ensures
        r is Some <==> student_shape(v@),
        r matches Some(p) ==> student_matches(p, v@),
{
    let f_id = match get_u32(v, "id") {
        Some(x) => x,
        None => {
            return None;
        },
    };
    let f_login = match get_str(v, "login") {
        Some(x) => x,
        None => {
            return None;
        },
    };
    let f_first_name = match get_str(v, "firstName") {
        Some(x) => x,
        None => {
            return None;
        },
    };
    let f_last_name = match get_str(v, "lastName") {
        Some(x) => x,
        None => {
            return None;
        },
    };
    let f_email = match get_str(v, "email") {
        Some(x) => x,
        None => {
            return None;
        },
    };
    let f_activated = match get_bool(v, "activated") {
        Some(x) => x,
        None => {
            return None;
        },
    };
    let f_lang_key = match get_str(v, "langKey") {
        Some(x) => x,
        None => {
            return None;
        },
    };
    let f_last_notification_read = match get_str(v, "lastNotificationRead") {
        Some(x) => x,
        None => {
            return None;
        },
    };
    let f_name = match get_str(v, "name") {
        Some(x) => x,
        None => {
            return None;
        },
    };
    let f_internal = match get_bool(v, "internal") {
        Some(x) => x,
        None => {
            return None;
        },
    };
    let f_participant_identifier = match get_str(v, "participantIdentifier") {
        Some(x) => x,
        None => {
            return None;
        },
    };
    Some(Student { id: f_id, login: f_login, first_name: f_first_name, last_name: f_last_name, email: f_email, activated: f_activated, lang_key: f_lang_key, last_notification_read: f_last_notification_read, name: f_name, internal: f_internal, participant_identifier: f_participant_identifier })
}

pub open spec fn submission_shape(v: Jv) -> bool {
    &&& jv_obj_u32(v, "id"@) is Some
    &&& jv_obj_str(v, "submissionExerciseType"@) is Some
    &&& jv_obj_bool(v, "submitted"@) is Some
    &&& jv_obj_str(v, "type"@) is Some
    &&& jv_obj_str(v, "submissionDate"@) is Some
    &&& jv_obj_str(v, "commitHash"@) is Some
    &&& jv_obj_bool(v, "buildFailed"@) is Some
    &&& jv_obj_bool(v, "buildArtifact"@) is Some
    &&& jv_obj_bool(v, "empty"@) is Some
    &&& jv_obj_u32(v, "durationInMinutes"@) is Some
}

pub open spec fn submission_matches(p: Submission, v: Jv) -> bool {
    &&& p.id == jv_obj_u32(v, "id"@).unwrap()
    &&& p.submission_exercise_type@ == jv_obj_str(v, "submissionExerciseType"@).unwrap()
    &&& p.submitted == jv_obj_bool(v, "submitted"@).unwrap()
    &&& p.kind@ == jv_obj_str(v, "type"@).unwrap()
    &&& p.submission_date@ == jv_obj_str(v, "submissionDate"@).unwrap()
    &&& p.commit_hash@ == jv_obj_str(v, "commitHash"@).unwrap()
    &&& p.build_failed == jv_obj_bool(v, "buildFailed"@).unwrap()
    &&& p.build_artifact == jv_obj_bool(v, "buildArtifact"@).unwrap()
    &&& p.empty == jv_obj_bool(v, "empty"@).unwrap()
    &&& p.duration_in_minutes == jv_obj_u32(v, "durationInMinutes"@).unwrap()
}

/// Builds a `Submission` from a decoded JSON value; `None` exactly when the
/// value does not have the shape `submission_shape` asks for.
pub fn submission_from_json(v: &JsonValue) -> (r: Option<Submission>)
    ensures
        r is Some <==> submission_shape(v@),
        r matches Some(p) ==> submission_matches(p, v@),
{
    let f_id = match get_u32(v, "id") {
        Some(x) => x,
        None => {
            return None;
        },
    };
    let f_submission_exercise_type = match get_str(v, "submissionExerciseType") {
        Some(x) => x,
        None => {
            return None;
        },
    };
    let f_submitted = match get_bool(v, "submitted") {
        Some(x) => x,
        None => {
            return None;
        },
    };
    let f_kind = match get_str(v, "type") {
        Some(x) => x,
        None => {
            return None;
        },
    };
    let f_submission_date = match get_str(v, "submissionDate") {
        Some(x) => x,
        None => {
            return None;
        },
    };
    let f_commit_hash = match get_str(v, "commitHash") {
        Some(x) => x,
        None => {
            return None;
        },
    };
    let f_build_failed = match get_bool(v, "buildFailed") {
        Some(x) => x,
        None => {
            return None;
        },
    };
    let f_build_artifact = match get_bool(v, "buildArtifact") {
        Some(x) => x,
        None => {
            return None;
        },
    };
    let f_empty = match get_bool(v, "empty") {
        Some(x) => x,
        None => {
            return None;
        },
    };
    let f_duration_in_minutes = match get_u32(v, "durationInMinutes") {
        Some(x) => x,
        None => {
            return None;
        },
    };
    Some(Submission { id: f_id, submission_exercise_type: f_submission_exercise_type, submitted: f_submitted, kind: f_kind, submission_date: f_submission_date, commit_hash: f_commit_hash, build_failed: f_build_failed, build_artifact: f_build_artifact, empty: f_empty, duration_in_minutes: f_duration_in_minutes })
}

pub open spec fn result_shape(v: Jv) -> bool {
    &&& jv_obj_u32(v, "id"@) is Some
    &&& jv_obj_str(v, "resultString"@) is Some
    &&& jv_obj_str(v, "completionDate"@) is Some
    &&& jv_obj_bool(v, "successful"@) is Some
    &&& jv_obj_num(v, "score"@) is Some
    &&& jv_obj_bool(v, "rated"@) is Some
    &&& jv_obj_bool(v, "hasFeedback"@) is Some
    &&& (match jv_obj_get(v, "submission"@) {
        Some(w) => submission_shape(w),
        None => false,
    })
    &&& jv_obj_str(v, "assessmentType"@) is Some
    &&& jv_obj_opt_bool(v, "hasComplaint"@) is Some
}

pub open spec fn result_matches(p: ParitcipationResult, v: Jv) -> bool {
    &&& p.id == jv_obj_u32(v, "id"@).unwrap()
    &&& p.result_string@ == jv_obj_str(v, "resultString"@).unwrap()
    &&& p.completion_date@ == jv_obj_str(v, "completionDate"@).unwrap()
    &&& p.successful == jv_obj_bool(v, "successful"@).unwrap()
    &&& p.score@ == jv_obj_num(v, "score"@).unwrap()
    &&& p.rated == jv_obj_bool(v, "rated"@).unwrap()
    &&& p.has_feedback == jv_obj_bool(v, "hasFeedback"@).unwrap()
    &&& submission_matches(p.submission, jv_obj_get(v, "submission"@).unwrap())
    &&& p.assessment_type@ == jv_obj_str(v, "assessmentType"@).unwrap()
    &&& p.has_complaint == jv_obj_opt_bool(v, "hasComplaint"@).unwrap()
}

/// Builds a `ParitcipationResult` from a decoded JSON value; `None` exactly when the
/// value does not have the shape `result_shape` asks for.
pub fn result_from_json(v: &JsonValue) -> (r: Option<ParitcipationResult>)
    ensures
        r is Some <==> result_shape(v@),
        r matches Some(p) ==> result_matches(p, v@),
{
    let f_id = match get_u32(v, "id") {
        Some(x) => x,
        None => {
            return None;
        },
    };
    let f_result_string = match get_str(v, "resultString") {
        Some(x) => x,
        None => {
            return None;
        },
    };
    let f_completion_date = match get_str(v, "completionDate") {
        Some(x) => x,
        None => {
            return None;
        },
    };
    let f_successful = match get_bool(v, "successful") {
        Some(x) => x,
        None => {
            return None;
        },
    };
    let f_score = match get_num(v, "score") {
        Some(x) => x,
        None => {
            return None;
        },
    };
    let f_rated = match get_bool(v, "rated") {
        Some(x) => x,
        None => {
            return None;
        },
    };
    let f_has_feedback = match get_bool(v, "hasFeedback") {
        Some(x) => x,
        None => {
            return None;
        },
    };
    let f_submission = match get_val(v, "submission") {
        Some(w) => match submission_from_json(w) {
            Some(x) => x,
            None => {
                return None;
            },
        },
        None => {
            return None;
        },
    };
    let f_assessment_type = match get_str(v, "assessmentType") {
        Some(x) => x,
        None => {
            return None;
        },
    };
    let f_has_complaint = match get_opt_bool(v, "hasComplaint") {
        Some(x) => x,
        None => {
            return None;
        },
    };
    Some(ParitcipationResult { id: f_id, result_string: f_result_string, completion_date: f_completion_date, successful: f_successful, score: f_score, rated: f_rated, has_feedback: f_has_feedback, submission: f_submission, assessment_type: f_assessment_type, has_complaint: f_has_complaint })
}

pub open spec fn student_participation_shape(v: Jv) -> bool {
    &&& jv_obj_str(v, "type"@) is Some
    &&& jv_obj_u32(v, "id"@) is Some
    &&& jv_obj_str(v, "initializationState"@) is Some
    &&& jv_obj_str(v, "initializationDate"@) is Some
    &&& jv_obj_bool(v, "testRun"@) is Some
    &&& (match jv_obj_arr(v, "results"@) {
        Some(es) => forall|i: int| 0 <= i < es.len() ==> result_shape(#[trigger] es[i]),
        None => false,
    })
    &&& (match jv_obj_arr(v, "submissions"@) {
        Some(es) => forall|i: int| 0 <= i < es.len() ==> submission_shape(#[trigger] es[i]),
        None => false,
    })
    &&& (match jv_obj_get(v, "student"@) {
        Some(w) => student_shape(w),
        None => false,
    })
    &&& jv_obj_str(v, "repositoryUrl"@) is Some
    &&& jv_obj_opt_str(v, "branch"@) is Some
    &&& jv_obj_str(v, "userIndependentRepositoryUrl"@) is Some
    &&& jv_obj_str(v, "participantIdentifier"@) is Some
    &&& jv_obj_str(v, "participantName"@) is Some
}

pub open spec fn student_participation_matches(p: StudentParticipation, v: Jv) -> bool {
    &&& p.kind@ == jv_obj_str(v, "type"@).unwrap()
    &&& p.id == jv_obj_u32(v, "id"@).unwrap()
    &&& p.initialization_state@ == jv_obj_str(v, "initializationState"@).unwrap()
    &&& p.initialization_date@ == jv_obj_str(v, "initializationDate"@).unwrap()
    &&& p.test_run == jv_obj_bool(v, "testRun"@).unwrap()
    &&& (match jv_obj_arr(v, "results"@) {
        Some(es) => p.results@.len() == es.len() && (forall|i: int|
            0 <= i < es.len() ==> result_matches(p.results@[i], #[trigger] es[i])),
        None => false,
    })
    &&& (match jv_obj_arr(v, "submissions"@) {
        Some(es) => p.submissions@.len() == es.len() && (forall|i: int|
            0 <= i < es.len() ==> submission_matches(p.submissions@[i], #[trigger] es[i])),
        None => false,
    })
    &&& student_matches(p.student, jv_obj_get(v, "student"@).unwrap())
    &&& p.repository_url@ == jv_obj_str(v, "repositoryUrl"@).unwrap()
    &&& opt_str_matches(p.branch, jv_obj_opt_str(v, "branch"@).unwrap())
    &&& p.user_independent_repository_url@ == jv_obj_str(v, "userIndependentRepositoryUrl"@).unwrap()
    &&& p.participant_identifier@ == jv_obj_str(v, "participantIdentifier"@).unwrap()
    &&& p.participant_name@ == jv_obj_str(v, "participantName"@).unwrap()
}

/// Builds a `StudentParticipation` from a decoded JSON value; `None` exactly when the
/// value does not have the shape `student_participation_shape` asks for.
#[verifier::rlimit(100)]
pub fn student_participation_from_json(v: &JsonValue) -> (r: Option<StudentParticipation>)
    ensures
        r is Some <==> student_participation_shape(v@),
        r matches Some(p) ==> student_participation_matches(p, v@),
{
    let f_kind = match get_str(v, "type") {
        Some(x) => x,
        None => {
            return None;
        },
    };
    let f_id = match get_u32(v, "id") {
        Some(x) => x,
        None => {
            return None;
        },
    };
    let f_initialization_state = match get_str(v, "initializationState") {
        Some(x) => x,
        None => {
            return None;
        },
    };
    let f_initialization_date = match get_str(v, "initializationDate") {
        Some(x) => x,
        None => {
            return None;
        },
    };
    let f_test_run = match get_bool(v, "testRun") {
        Some(x) => x,
        None => {
            return None;
        },
    };
    let arr_f_results = match get_arr(v, "results") {
        Some(a) => a,
        None => {
            return None;
        },
    };
    proof {
        assert(jv_obj_arr(v@, "results"@).unwrap() == views_of(arr_f_results@));
    }
    let f_results = match decode_result_array(arr_f_results) {
        Some(x) => x,
        None => {
            return None;
        },
    };
    let arr_f_submissions = match get_arr(v, "submissions") {
        Some(a) => a,
        None => {
            return None;
        },
    };
    proof {
        assert(jv_obj_arr(v@, "submissions"@).unwrap() == views_of(arr_f_submissions@));
    }
    let f_submissions = match decode_submission_array(arr_f_submissions) {
        Some(x) => x,
        None => {
            return None;
        },
    };
    let f_student = match get_val(v, "student") {
        Some(w) => match student_from_json(w) {
            Some(x) => x,
            None => {
                return None;
            },
        },
        None => {
            return None;
        },
    };
    let f_repository_url = match get_str(v, "repositoryUrl") {
        Some(x) => x,
        None => {
            return None;
        },
    };
    let f_branch = match get_opt_str(v, "branch") {
        Some(x) => x,
        None => {
            return None;
        },
    };
    let f_user_independent_repository_url = match get_str(v, "userIndependentRepositoryUrl") {
        Some(x) => x,
        None => {
            return None;
        },
    };
    let f_participant_identifier = match get_str(v, "participantIdentifier") {
        Some(x) => x,
        None => {
            return None;
        },
    };
    let f_participant_name = match get_str(v, "participantName") {
        Some(x) => x,
        None => {
            return None;
        },
    };
    Some(StudentParticipation { kind: f_kind, id: f_id, initialization_state: f_initialization_state, initialization_date: f_initialization_date, test_run: f_test_run, results: f_results, submissions: f_submissions, student: f_student, repository_url: f_repository_url, branch: f_branch, user_independent_repository_url: f_user_independent_repository_url, participant_identifier: f_participant_identifier, participant_name: f_participant_name })
}

pub open spec fn exercise_shape_head(v: Jv) -> bool {
    &&& jv_obj_str(v, "type"@) is Some
    &&& jv_obj_u32(v, "id"@) is Some
    &&& jv_obj_str(v, "title"@) is Some
    &&& jv_obj_str(v, "shortName"@) is Some
    &&& jv_obj_num(v, "maxPoints"@) is Some
    &&& jv_obj_num(v, "bonusPoints"@) is Some
    &&& jv_obj_str(v, "assessmentType"@) is Some
    &&& jv_obj_str(v, "releaseDate"@) is Some
    &&& jv_obj_str(v, "dueDate"@) is Some
    &&& jv_obj_opt_str(v, "difficulty"@) is Some
    &&& jv_obj_str(v, "mode"@) is Some
    &&& jv_obj_bool(v, "allowComplaintsForAutomaticAssessments"@) is Some
    &&& jv_obj_str(v, "includedInOverallScore"@) is Some
    &&& jv_obj_bool(v, "presentationScoreEnabled"@) is Some
    &&& jv_obj_bool(v, "secondCorrectionEnabled"@) is Some
    &&& (match jv_obj_arr_default(v, "studentParticipations"@) {
        Some(es) => forall|i: int| 0 <= i < es.len() ==> student_participation_shape(#[trigger] es[i]),
        None => false,
    })
    &&& jv_obj_bool(v, "publishBuildPlanUrl"@) is Some
    &&& jv_obj_bool(v, "allowOnlineEditor"@) is Some
    &&& jv_obj_bool(v, "allowOfflineIde"@) is Some
}

pub open spec fn exercise_shape_rest(v: Jv) -> bool {
    &&& jv_obj_bool(v, "staticCodeAnalysisEnabled"@) is Some
    &&& jv_obj_str(v, "programmingLanguage"@) is Some
    &&& jv_obj_str(v, "packageName"@) is Some
    &&& jv_obj_bool(v, "sequentialTestRuns"@) is Some
    &&& jv_obj_bool(v, "showTestNamesToStudents"@) is Some
    &&& jv_obj_bool(v, "testCasesChanged"@) is Some
    &&& jv_obj_str(v, "projectKey"@) is Some
    &&& jv_obj_str(v, "projectType"@) is Some
    &&& jv_obj_bool(v, "testwiseCoverageEnabled"@) is Some
    &&& jv_obj_str(v, "branch"@) is Some
    &&& jv_obj_bool(v, "checkoutSolutionRepository"@) is Some
    &&& jv_obj_str(v, "exerciseType"@) is Some
    &&& jv_obj_bool(v, "isLocalSimulation"@) is Some
    &&& jv_obj_bool(v, "released"@) is Some
    &&& jv_obj_bool(v, "studentAssignedTeamIdComputed"@) is Some
    &&& jv_obj_bool(v, "gradingInstructionFeedbackUsed"@) is Some
    &&& jv_obj_bool(v, "exampleSolutionPublished"@) is Some
    &&& jv_obj_bool(v, "visibleToStudents"@) is Some
    &&& jv_obj_bool(v, "teamMode"@) is Some
}

pub open spec fn exercise_shape(v: Jv) -> bool {
    exercise_shape_head(v) && exercise_shape_rest(v)
}

pub open spec fn exercise_matches_head(t: (String, u32, String, String, String, String, String, String, String, Option<String>, String, bool, String, bool, bool, Vec<StudentParticipation>, bool, bool, bool), v: Jv) -> bool {
    &&& t.0@ == jv_obj_str(v, "type"@).unwrap()
    &&& t.1 == jv_obj_u32(v, "id"@).unwrap()
    &&& t.2@ == jv_obj_str(v, "title"@).unwrap()
    &&& t.3@ == jv_obj_str(v, "shortName"@).unwrap()
    &&& t.4@ == jv_obj_num(v, "maxPoints"@).unwrap()
    &&& t.5@ == jv_obj_num(v, "bonusPoints"@).unwrap()
    &&& t.6@ == jv_obj_str(v, "assessmentType"@).unwrap()
    &&& t.7@ == jv_obj_str(v, "releaseDate"@).unwrap()
    &&& t.8@ == jv_obj_str(v, "dueDate"@).unwrap()
    &&& opt_str_matches(t.9, jv_obj_opt_str(v, "difficulty"@).unwrap())
    &&& t.10@ == jv_obj_str(v, "mode"@).unwrap()
    &&& t.11 == jv_obj_bool(v, "allowComplaintsForAutomaticAssessments"@).unwrap()
    &&& t.12@ == jv_obj_str(v, "includedInOverallScore"@).unwrap()
    &&& t.13 == jv_obj_bool(v, "presentationScoreEnabled"@).unwrap()
    &&& t.14 == jv_obj_bool(v, "secondCorrectionEnabled"@).unwrap()
    &&& (match jv_obj_arr_default(v, "studentParticipations"@) {
        Some(es) => t.15@.len() == es.len() && (forall|i: int|
            0 <= i < es.len() ==> student_participation_matches(t.15@[i], #[trigger] es[i])),
        None => false,
    })
    &&& t.16 == jv_obj_bool(v, "publishBuildPlanUrl"@).unwrap()
    &&& t.17 == jv_obj_bool(v, "allowOnlineEditor"@).unwrap()
    &&& t.18 == jv_obj_bool(v, "allowOfflineIde"@).unwrap()
}

pub open spec fn exercise_matches(p: Exercise, v: Jv) -> bool {
    &&& exercise_matches_head((p.kind, p.id, p.title, p.short_name, p.max_points, p.bonus_points, p.assessment_type, p.release_date, p.due_date, p.difficulty, p.mode, p.allow_complaints_for_automatic_assessments, p.included_in_overall_score, p.presentation_score_enabled, p.second_correction_enabled, p.student_participations, p.publish_build_plan_url, p.allow_online_editor, p.allow_offline_ide,), v)
    &&& p.static_code_analysis_enabled == jv_obj_bool(v, "staticCodeAnalysisEnabled"@).unwrap()
    &&& p.programming_language@ == jv_obj_str(v, "programmingLanguage"@).unwrap()
    &&& p.package_name@ == jv_obj_str(v, "packageName"@).unwrap()
    &&& p.sequential_test_runs == jv_obj_bool(v, "sequentialTestRuns"@).unwrap()
    &&& p.show_test_names_to_students == jv_obj_bool(v, "showTestNamesToStudents"@).unwrap()
    &&& p.test_cases_changed == jv_obj_bool(v, "testCasesChanged"@).unwrap()
    &&& p.project_key@ == jv_obj_str(v, "projectKey"@).unwrap()
    &&& p.project_type@ == jv_obj_str(v, "projectType"@).unwrap()
    &&& p.testwise_coverage_enabled == jv_obj_bool(v, "testwiseCoverageEnabled"@).unwrap()
    &&& p.branch@ == jv_obj_str(v, "branch"@).unwrap()
    &&& p.checkout_solution_repository == jv_obj_bool(v, "checkoutSolutionRepository"@).unwrap()
    &&& p.exercise_type@ == jv_obj_str(v, "exerciseType"@).unwrap()
    &&& p.is_local_simulation == jv_obj_bool(v, "isLocalSimulation"@).unwrap()
    &&& p.released == jv_obj_bool(v, "released"@).unwrap()
    &&& p.student_assigned_team_id_computed == jv_obj_bool(v, "studentAssignedTeamIdComputed"@).unwrap()
    &&& p.grading_instruction_feedback_used == jv_obj_bool(v, "gradingInstructionFeedbackUsed"@).unwrap()
    &&& p.example_solution_published == jv_obj_bool(v, "exampleSolutionPublished"@).unwrap()
    &&& p.visible_to_students == jv_obj_bool(v, "visibleToStudents"@).unwrap()
    &&& p.team_mode == jv_obj_bool(v, "teamMode"@).unwrap()
}

/// The first half of an exercise's fields, in declaration order.
#[verifier::rlimit(100)]
fn exercise_head_from_json(v: &JsonValue) -> (r: Option<(String, u32, String, String, String, String, String, String, String, Option<String>, String, bool, String, bool, bool, Vec<StudentParticipation>, bool, bool, bool)>)
    ensures
        r is Some <==> exercise_shape_head(v@),
        r matches Some(t) ==> exercise_matches_head(t, v@),
{
    let f_kind = match get_str(v, "type") {
        Some(x) => x,
        None => {
            return None;
        },
    };
    let f_id = match get_u32(v, "id") {
        Some(x) => x,
        None => {
            return None;
        },
    };
    let f_title = match get_str(v, "title") {
        Some(x) => x,
        None => {
            return None;
        },
    };
    let f_short_name = match get_str(v, "shortName") {
        Some(x) => x,
        None => {
            return None;
        },
    };
    let f_max_points = match get_num(v, "maxPoints") {
        Some(x) => x,
        None => {
            return None;
        },
    };
    let f_bonus_points = match get_num(v, "bonusPoints") {
        Some(x) => x,
        None => {
            return None;
        },
    };
    let f_assessment_type = match get_str(v, "assessmentType") {
        Some(x) => x,
        None => {
            return None;
        },
    };
    let f_release_date = match get_str(v, "releaseDate") {
        Some(x) => x,
        None => {
            return None;
        },
    };
    let f_due_date = match get_str(v, "dueDate") {
        Some(x) => x,
        None => {
            return None;
        },
    };
    let f_difficulty = match get_opt_str(v, "difficulty") {
        Some(x) => x,
        None => {
            return None;
        },
    };
    let f_mode = match get_str(v, "mode") {
        Some(x) => x,
        None => {
            return None;
        },
    };
    let f_allow_complaints_for_automatic_assessments = match get_bool(v, "allowComplaintsForAutomaticAssessments") {
        Some(x) => x,
        None => {
            return None;
        },
    };
    let f_included_in_overall_score = match get_str(v, "includedInOverallScore") {
        Some(x) => x,
        None => {
            return None;
        },
    };
    let f_presentation_score_enabled = match get_bool(v, "presentationScoreEnabled") {
        Some(x) => x,
        None => {
            return None;
        },
    };
    let f_second_correction_enabled = match get_bool(v, "secondCorrectionEnabled") {
        Some(x) => x,
        None => {
            return None;
        },
    };
    let f_student_participations = match get_arr_default(v, "studentParticipations") {
        Some(Some(a)) => {
            proof {
                assert(jv_obj_arr_default(v@, "studentParticipations"@).unwrap() == views_of(a@));
            }
            match decode_student_participation_array(a) {
                Some(x) => x,
                None => {
                    return None;
                },
            }
        },
        Some(None) => Vec::new(),
        None => {
            return None;
        },
    };
    let f_publish_build_plan_url = match get_bool(v, "publishBuildPlanUrl") {
        Some(x) => x,
        None => {
            return None;
        },
    };
    let f_allow_online_editor = match get_bool(v, "allowOnlineEditor") {
        Some(x) => x,
        None => {
            return None;
        },
    };
    let f_allow_offline_ide = match get_bool(v, "allowOfflineIde") {
        Some(x) => x,
        None => {
            return None;
        },
    };
    Some((f_kind, f_id, f_title, f_short_name, f_max_points, f_bonus_points, f_assessment_type, f_release_date, f_due_date, f_difficulty, f_mode, f_allow_complaints_for_automatic_assessments, f_included_in_overall_score, f_presentation_score_enabled, f_second_correction_enabled, f_student_participations, f_publish_build_plan_url, f_allow_online_editor, f_allow_offline_ide))
}

/// Builds a `Exercise` from a decoded JSON value; `None` exactly when the
/// value does not have the shape `exercise_shape` asks for.
#[verifier::rlimit(100)]
pub fn exercise_from_json(v: &JsonValue) -> (r: Option<Exercise>)
    ensures
        r is Some <==> exercise_shape(v@),
        r matches Some(p) ==> exercise_matches(p, v@),
{
    let h = match exercise_head_from_json(v) {
        Some(t) => t,
        None => {
            return None;
        },
    };
    let f_static_code_analysis_enabled = match get_bool(v, "staticCodeAnalysisEnabled") {
        Some(x) => x,
        None => {
            return None;
        },
    };
    let f_programming_language = match get_str(v, "programmingLanguage") {
        Some(x) => x,
        None => {
            return None;
        },
    };
    let f_package_name = match get_str(v, "packageName") {
        Some(x) => x,
        None => {
            return None;
        },
    };
    let f_sequential_test_runs = match get_bool(v, "sequentialTestRuns") {
        Some(x) => x,
        None => {
            return None;
        },
    };
    let f_show_test_names_to_students = match get_bool(v, "showTestNamesToStudents") {
        Some(x) => x,
        None => {
            return None;
        },
    };
    let f_test_cases_changed = match get_bool(v, "testCasesChanged") {
        Some(x) => x,
        None => {
            return None;
        },
    };
    let f_project_key = match get_str(v, "projectKey") {
        Some(x) => x,
        None => {
            return None;
        },
    };
    let f_project_type = match get_str(v, "projectType") {
        Some(x) => x,
        None => {
            return None;
        },
    };
    let f_testwise_coverage_enabled = match get_bool(v, "testwiseCoverageEnabled") {
        Some(x) => x,
        None => {
            return None;
        },
    };
    let f_branch = match get_str(v, "branch") {
        Some(x) => x,
        None => {
            return None;
        },
    };
    let f_checkout_solution_repository = match get_bool(v, "checkoutSolutionRepository") {
        Some(x) => x,
        None => {
            return None;
        },
    };
    let f_exercise_type = match get_str(v, "exerciseType") {
        Some(x) => x,
        None => {
            return None;
        },
    };
    let f_is_local_simulation = match get_bool(v, "isLocalSimulation") {
        Some(x) => x,
        None => {
            return None;
        },
    };
    let f_released = match get_bool(v, "released") {
        Some(x) => x,
        None => {
            return None;
        },
    };
    let f_student_assigned_team_id_computed = match get_bool(v, "studentAssignedTeamIdComputed") {
        Some(x) => x,
        None => {
            return None;
        },
    };
    let f_grading_instruction_feedback_used = match get_bool(v, "gradingInstructionFeedbackUsed") {
        Some(x) => x,
        None => {
            return None;
        },
    };
    let f_example_solution_published = match get_bool(v, "exampleSolutionPublished") {
        Some(x) => x,
        None => {
            return None;
        },
    };
    let f_visible_to_students = match get_bool(v, "visibleToStudents") {
        Some(x) => x,
        None => {
            return None;
        },
    };
    let f_team_mode = match get_bool(v, "teamMode") {
        Some(x) => x,
        None => {
            return None;
        },
    };
    Some(Exercise { kind: h.0, id: h.1, title: h.2, short_name: h.3, max_points: h.4, bonus_points: h.5, assessment_type: h.6, release_date: h.7, due_date: h.8, difficulty: h.9, mode: h.10, allow_complaints_for_automatic_assessments: h.11, included_in_overall_score: h.12, presentation_score_enabled: h.13, second_correction_enabled: h.14, student_participations: h.15, publish_build_plan_url: h.16, allow_online_editor: h.17, allow_offline_ide: h.18, static_code_analysis_enabled: f_static_code_analysis_enabled, programming_language: f_programming_language, package_name: f_package_name, sequential_test_runs: f_sequential_test_runs, show_test_names_to_students: f_show_test_names_to_students, test_cases_changed: f_test_cases_changed, project_key: f_project_key, project_type: f_project_type, testwise_coverage_enabled: f_testwise_coverage_enabled, branch: f_branch, checkout_solution_repository: f_checkout_solution_repository, exercise_type: f_exercise_type, is_local_simulation: f_is_local_simulation, released: f_released, student_assigned_team_id_computed: f_student_assigned_team_id_computed, grading_instruction_feedback_used: f_grading_instruction_feedback_used, example_solution_published: f_example_solution_published, visible_to_students: f_visible_to_students, team_mode: f_team_mode })
}

pub open spec fn project_shape(v: Jv) -> bool {
    &&& jv_obj_u32(v, "id"@) is Some
    &&& jv_obj_str(v, "title"@) is Some
    &&& jv_obj_str(v, "shortName"@) is Some
    &&& jv_obj_str(v, "studentGroupName"@) is Some
    &&& jv_obj_opt_str(v, "teachingAssistantGroupName"@) is Some
    &&& jv_obj_str(v, "editorGroupName"@) is Some
    &&& jv_obj_str(v, "startDate"@) is Some
    &&& jv_obj_str(v, "endDate"@) is Some
    &&& jv_obj_str(v, "semester"@) is Some
    &&& jv_obj_bool(v, "testCourse"@) is Some
    &&& jv_obj_bool(v, "onlineCourse"@) is Some
    &&& jv_obj_u32(v, "maxComplaints"@) is Some
    &&& jv_obj_u32(v, "maxTeamComplaints"@) is Some
    &&& jv_obj_u32(v, "maxComplaintTimeDays"@) is Some
    &&& jv_obj_u32(v, "maxComplaintTextLimit"@) is Some
    &&& jv_obj_u32(v, "maxComplaintResponseTextLimit"@) is Some
    &&& jv_obj_bool(v, "postsEnabled"@) is Some
    &&& jv_obj_u32(v, "maxRequestMoreFeedbackTimeDays"@) is Some
    &&& jv_obj_str(v, "color"@) is Some
    &&& jv_obj_bool(v, "registrationEnabled"@) is Some
    &&& jv_obj_str(v, "registrationConfirmationMessage"@) is Some
    &&& jv_obj_num(v, "presentationScore"@) is Some
    &&& jv_obj_num(v, "accuracyOfScores"@) is Some
    &&& (match jv_obj_arr(v, "exercises"@) {
        Some(es) => forall|i: int| 0 <= i < es.len() ==> exercise_shape(#[trigger] es[i]),
        None => false,
    })
    &&& jv_obj_bool(v, "complaintsEnabled"@) is Some
    &&& jv_obj_bool(v, "validStartAndEndDate"@) is Some
    &&& jv_obj_bool(v, "requestMoreFeedbackEnabled"@) is Some
}

pub open spec fn project_matches(p: Project, v: Jv) -> bool {
    &&& p.id == jv_obj_u32(v, "id"@).unwrap()
    &&& p.title@ == jv_obj_str(v, "title"@).unwrap()
    &&& p.short_name@ == jv_obj_str(v, "shortName"@).unwrap()
    &&& p.student_group_name@ == jv_obj_str(v, "studentGroupName"@).unwrap()
    &&& opt_str_matches(p.teaching_assistant_group_name, jv_obj_opt_str(v, "teachingAssistantGroupName"@).unwrap())
    &&& p.editor_group_name@ == jv_obj_str(v, "editorGroupName"@).unwrap()
    &&& p.start_date@ == jv_obj_str(v, "startDate"@).unwrap()
    &&& p.end_date@ == jv_obj_str(v, "endDate"@).unwrap()
    &&& p.semester@ == jv_obj_str(v, "semester"@).unwrap()
    &&& p.test_course == jv_obj_bool(v, "testCourse"@).unwrap()
    &&& p.online_course == jv_obj_bool(v, "onlineCourse"@).unwrap()
    &&& p.max_complaints == jv_obj_u32(v, "maxComplaints"@).unwrap()
    &&& p.max_team_complaints == jv_obj_u32(v, "maxTeamComplaints"@).unwrap()
    &&& p.max_complaint_time_days == jv_obj_u32(v, "maxComplaintTimeDays"@).unwrap()
    &&& p.max_complaint_text_limit == jv_obj_u32(v, "maxComplaintTextLimit"@).unwrap()
    &&& p.max_complaint_response_text_limit == jv_obj_u32(v, "maxComplaintResponseTextLimit"@).unwrap()
    &&& p.posts_enabled == jv_obj_bool(v, "postsEnabled"@).unwrap()
    &&& p.max_request_more_feedback_time_days == jv_obj_u32(v, "maxRequestMoreFeedbackTimeDays"@).unwrap()
    &&& p.color@ == jv_obj_str(v, "color"@).unwrap()
    &&& p.registration_enabled == jv_obj_bool(v, "registrationEnabled"@).unwrap()
    &&& p.registration_confirmation_message@ == jv_obj_str(v, "registrationConfirmationMessage"@).unwrap()
    &&& p.presentation_score@ == jv_obj_num(v, "presentationScore"@).unwrap()
    &&& p.accuracy_of_scores@ == jv_obj_num(v, "accuracyOfScores"@).unwrap()
    &&& (match jv_obj_arr(v, "exercises"@) {
        Some(es) => p.exercises@.len() == es.len() && (forall|i: int|
            0 <= i < es.len() ==> exercise_matches(p.exercises@[i], #[trigger] es[i])),
        None => false,
    })
    &&& p.complaints_enabled == jv_obj_bool(v, "complaintsEnabled"@).unwrap()
    &&& p.valid_start_and_end_date == jv_obj_bool(v, "validStartAndEndDate"@).unwrap()
    &&& p.request_more_feedback_enabled == jv_obj_bool(v, "requestMoreFeedbackEnabled"@).unwrap()
}

/// Builds a `Project` from a decoded JSON value; `None` exactly when the
/// value does not have the shape `project_shape` asks for.
#[verifier::rlimit(100)]
#[verifier::spinoff_prover]
pub fn project_from_json(v: &JsonValue) -> (r: Option<Project>)
    ensures
        r is Some <==> project_shape(v@),
        r matches Some(p) ==> project_matches(p, v@),
{
    let f_id = match get_u32(v, "id") {
        Some(x) => x,
        None => {
            return None;
        },
    };
    let f_title = match get_str(v, "title") {
        Some(x) => x,
        None => {
            return None;
        },
    };
    let f_short_name = match get_str(v, "shortName") {
        Some(x) => x,
        None => {
            return None;
        },
    };
    let f_student_group_name = match get_str(v, "studentGroupName") {
        Some(x) => x,
        None => {
            return None;
        },
    };
    let f_teaching_assistant_group_name = match get_opt_str(v, "teachingAssistantGroupName") {
        Some(x) => x,
        None => {
            return None;
        },
    };
    let f_editor_group_name = match get_str(v, "editorGroupName") {
        Some(x) => x,
        None => {
            return None;
        },
    };
    let f_start_date = match get_str(v, "startDate") {
        Some(x) => x,
        None => {
            return None;
        },
    };
    let f_end_date = match get_str(v, "endDate") {
        Some(x) => x,
        None => {
            return None;
        },
    };
    let f_semester = match get_str(v, "semester") {
        Some(x) => x,
        None => {
            return None;
        },
    };
    let f_test_course = match get_bool(v, "testCourse") {
        Some(x) => x,
        None => {
            return None;
        },
    };
    let f_online_course = match get_bool(v, "onlineCourse") {
        Some(x) => x,
        None => {
            return None;
        },
    };
    let f_max_complaints = match get_u32(v, "maxComplaints") {
        Some(x) => x,
        None => {
            return None;
        },
    };
    let f_max_team_complaints = match get_u32(v, "maxTeamComplaints") {
        Some(x) => x,
        None => {
            return None;
        },
    };
    let f_max_complaint_time_days = match get_u32(v, "maxComplaintTimeDays") {
        Some(x) => x,
        None => {
            return None;
        },
    };
    let f_max_complaint_text_limit = match get_u32(v, "maxComplaintTextLimit") {
        Some(x) => x,
        None => {
            return None;
        },
    };
    let f_max_complaint_response_text_limit = match get_u32(v, "maxComplaintResponseTextLimit") {
        Some(x) => x,
        None => {
            return None;
        },
    };
    let f_posts_enabled = match get_bool(v, "postsEnabled") {
        Some(x) => x,
        None => {
            return None;
        },
    };
    let f_max_request_more_feedback_time_days = match get_u32(v, "maxRequestMoreFeedbackTimeDays") {
        Some(x) => x,
        None => {
            return None;
        },
    };
    let f_color = match get_str(v, "color") {
        Some(x) => x,
        None => {
            return None;
        },
    };
    let f_registration_enabled = match get_bool(v, "registrationEnabled") {
        Some(x) => x,
        None => {
            return None;
        },
    };
    let f_registration_confirmation_message = match get_str(v, "registrationConfirmationMessage") {
        Some(x) => x,
        None => {
            return None;
        },
    };
    let f_presentation_score = match get_num(v, "presentationScore") {
        Some(x) => x,
        None => {
            return None;
        },
    };
    let f_accuracy_of_scores = match get_num(v, "accuracyOfScores") {
        Some(x) => x,
        None => {
            return None;
        },
    };
    let arr_f_exercises = match get_arr(v, "exercises") {
        Some(a) => a,
        None => {
            return None;
        },
    };
    proof {
        assert(jv_obj_arr(v@, "exercises"@).unwrap() == views_of(arr_f_exercises@));
    }
    let f_exercises = match decode_exercise_array(arr_f_exercises) {
        Some(x) => x,
        None => {
            return None;
        },
    };
    let f_complaints_enabled = match get_bool(v, "complaintsEnabled") {
        Some(x) => x,
        None => {
            return None;
        },
    };
    let f_valid_start_and_end_date = match get_bool(v, "validStartAndEndDate") {
        Some(x) => x,
        None => {
            return None;
        },
    };
    let f_request_more_feedback_enabled = match get_bool(v, "requestMoreFeedbackEnabled") {
        Some(x) => x,
        None => {
            return None;
        },
    };
    Some(Project { id: f_id, title: f_title, short_name: f_short_name, student_group_name: f_student_group_name, teaching_assistant_group_name: f_teaching_assistant_group_name, editor_group_name: f_editor_group_name, start_date: f_start_date, end_date: f_end_date, semester: f_semester, test_course: f_test_course, online_course: f_online_course, max_complaints: f_max_complaints, max_team_complaints: f_max_team_complaints, max_complaint_time_days: f_max_complaint_time_days, max_complaint_text_limit: f_max_complaint_text_limit, max_complaint_response_text_limit: f_max_complaint_response_text_limit, posts_enabled: f_posts_enabled, max_request_more_feedback_time_days: f_max_request_more_feedback_time_days, color: f_color, registration_enabled: f_registration_enabled, registration_confirmation_message: f_registration_confirmation_message, presentation_score: f_presentation_score, accuracy_of_scores: f_accuracy_of_scores, exercises: f_exercises, complaints_enabled: f_complaints_enabled, valid_start_and_end_date: f_valid_start_and_end_date, request_more_feedback_enabled: f_request_more_feedback_enabled })
}

pub open spec fn runtime_info_shape(v: Jv) -> bool {
    &&& jv_obj_str(v, "name"@) is Some
    &&& jv_obj_str(v, "version"@) is Some
}

pub open spec fn runtime_info_matches(p: RuntimeInfo, v: Jv) -> bool {
    &&& p.name@ == jv_obj_str(v, "name"@).unwrap()
    &&& p.version@ == jv_obj_str(v, "version"@).unwrap()
}

/// Builds a `RuntimeInfo` from a decoded JSON value; `None` exactly when the
/// value does not have the shape `runtime_info_shape` asks for.
pub fn runtime_info_from_json(v: &JsonValue) -> (r: Option<RuntimeInfo>)
    ensures
        r is Some <==> runtime_info_shape(v@),
        r matches Some(p) ==> runtime_info_matches(p, v@),
{
    let f_name = match get_str(v, "name") {
        Some(x) => x,
        None => {
            return None;
        },
    };
    let f_version = match get_str(v, "version") {
        Some(x) => x,
        None => {
            return None;
        },
    };
    Some(RuntimeInfo { name: f_name, version: f_version })
}

pub open spec fn jvm_info_shape(v: Jv) -> bool {
    &&& jv_obj_str(v, "name"@) is Some
    &&& jv_obj_str(v, "vendor"@) is Some
    &&& jv_obj_str(v, "version"@) is Some
}

pub open spec fn jvm_info_matches(p: JVMInfo, v: Jv) -> bool {
    &&& p.name@ == jv_obj_str(v, "name"@).unwrap()
    &&& p.vendor@ == jv_obj_str(v, "vendor"@).unwrap()
    &&& p.version@ == jv_obj_str(v, "version"@).unwrap()
}

/// Builds a `JVMInfo` from a decoded JSON value; `None` exactly when the
/// value does not have the shape `jvm_info_shape` asks for.
pub fn jvm_info_from_json(v: &JsonValue) -> (r: Option<JVMInfo>)
    ensures
        r is Some <==> jvm_info_shape(v@),
        r matches Some(p) ==> jvm_info_matches(p, v@),
{
    let f_name = match get_str(v, "name") {
        Some(x) => x,
        None => {
            return None;
        },
    };
    let f_vendor = match get_str(v, "vendor") {
        Some(x) => x,
        None => {
            return None;
        },
    };
    let f_version = match get_str(v, "version") {
        Some(x) => x,
        None => {
            return None;
        },
    };
    Some(JVMInfo { name: f_name, vendor: f_vendor, version: f_version })
}

pub open spec fn java_info_shape(v: Jv) -> bool {
    &&& jv_obj_str(v, "vendor"@) is Some
    &&& jv_obj_str(v, "version"@) is Some
    &&& (match jv_obj_get(v, "runtime"@) {
        Some(w) => runtime_info_shape(w),
        None => false,
    })
    &&& (match jv_obj_get(v, "jvm"@) {
        Some(w) => jvm_info_shape(w),
        None => false,
    })
}

pub open spec fn java_info_matches(p: JavaInfo, v: Jv) -> bool {
    &&& p.vendor@ == jv_obj_str(v, "vendor"@).unwrap()
    &&& p.version@ == jv_obj_str(v, "version"@).unwrap()
    &&& runtime_info_matches(p.runtime, jv_obj_get(v, "runtime"@).unwrap())
    &&& jvm_info_matches(p.jvm, jv_obj_get(v, "jvm"@).unwrap())
}

/// Builds a `JavaInfo` from a decoded JSON value; `None` exactly when the
/// value does not have the shape `java_info_shape` asks for.
pub fn java_info_from_json(v: &JsonValue) -> (r: Option<JavaInfo>)
    ensures
        r is Some <==> java_info_shape(v@),
        r matches Some(p) ==> java_info_matches(p, v@),
{
    let f_vendor = match get_str(v, "vendor") {
        Some(x) => x,
        None => {
            return None;
        },
    };
    let f_version = match get_str(v, "version") {
        Some(x) => x,
        None => {
            return None;
        },
    };
    let f_runtime = match get_val(v, "runtime") {
        Some(w) => match runtime_info_from_json(w) {
            Some(x) => x,
            None => {
                return None;
            },
        },
        None => {
            return None;
        },
    };
    let f_jvm = match get_val(v, "jvm") {
        Some(w) => match jvm_info_from_json(w) {
            Some(x) => x,
            None => {
                return None;
            },
        },
        None => {
            return None;
        },
    };
    Some(JavaInfo { vendor: f_vendor, version: f_version, runtime: f_runtime, jvm: f_jvm })
}

pub open spec fn build_info_shape(v: Jv) -> bool {
    &&& jv_obj_str(v, "artifact"@) is Some
    &&& jv_obj_str(v, "name"@) is Some
    &&& jv_obj_str(v, "time"@) is Some
    &&& jv_obj_str(v, "version"@) is Some
    &&& jv_obj_str(v, "group"@) is Some
}

pub open spec fn build_info_matches(p: BuildInfo, v: Jv) -> bool {
    &&& p.artifact@ == jv_obj_str(v, "artifact"@).unwrap()
    &&& p.name@ == jv_obj_str(v, "name"@).unwrap()
    &&& p.time@ == jv_obj_str(v, "time"@).unwrap()
    &&& p.version@ == jv_obj_str(v, "version"@).unwrap()
    &&& p.group@ == jv_obj_str(v, "group"@).unwrap()
}

/// Builds a `BuildInfo` from a decoded JSON value; `None` exactly when the
/// value does not have the shape `build_info_shape` asks for.
pub fn build_info_from_json(v: &JsonValue) -> (r: Option<BuildInfo>)
    ensures
        r is Some <==> build_info_shape(v@),
        r matches Some(p) ==> build_info_matches(p, v@),
{
    let f_artifact = match get_str(v, "artifact") {
        Some(x) => x,
        None => {
            return None;
        },
    };
    let f_name = match get_str(v, "name") {
        Some(x) => x,
        None => {
            return None;
        },
    };
    let f_time = match get_str(v, "time") {
        Some(x) => x,
        None => {
            return None;
        },
    };
    let f_version = match get_str(v, "version") {
        Some(x) => x,
        None => {
            return None;
        },
    };
    let f_group = match get_str(v, "group") {
        Some(x) => x,
        None => {
            return None;
        },
    };
    Some(BuildInfo { artifact: f_artifact, name: f_name, time: f_time, version: f_version, group: f_group })
}

pub open spec fn language_feature_shape(v: Jv) -> bool {
    &&& jv_obj_str(v, "programmingLanguage"@) is Some
    &&& jv_obj_bool(v, "sequentialTestRuns"@) is Some
    &&& jv_obj_bool(v, "staticCodeAnalysis"@) is Some
    &&& jv_obj_bool(v, "plagiarismCheckSupported"@) is Some
    &&& jv_obj_bool(v, "packageNameRequired"@) is Some
    &&& jv_obj_bool(v, "checkoutSolutionRepositoryAllowed"@) is Some
    &&& jv_obj_str_arr(v, "projectTypes"@) is Some
}

pub open spec fn language_feature_matches(p: LanguageFeature, v: Jv) -> bool {
    &&& p.programming_language@ == jv_obj_str(v, "programmingLanguage"@).unwrap()
    &&& p.sequential_test_runs == jv_obj_bool(v, "sequentialTestRuns"@).unwrap()
    &&& p.static_code_analysis == jv_obj_bool(v, "staticCodeAnalysis"@).unwrap()
    &&& p.plagiarism_check_supported == jv_obj_bool(v, "plagiarismCheckSupported"@).unwrap()
    &&& p.package_name_required == jv_obj_bool(v, "packageNameRequired"@).unwrap()
    &&& p.checkout_solution_repository_allowed == jv_obj_bool(v, "checkoutSolutionRepositoryAllowed"@).unwrap()
    &&& str_seq_matches(p.project_types@, jv_obj_str_arr(v, "projectTypes"@).unwrap())
}

/// Builds a `LanguageFeature` from a decoded JSON value; `None` exactly when the
/// value does not have the shape `language_feature_shape` asks for.
pub fn language_feature_from_json(v: &JsonValue) -> (r: Option<LanguageFeature>)
    ensures
        r is Some <==> language_feature_shape(v@),
        r matches Some(p) ==> language_feature_matches(p, v@),
{
    let f_programming_language = match get_str(v, "programmingLanguage") {
        Some(x) => x,
        None => {
            return None;
        },
    };
    let f_sequential_test_runs = match get_bool(v, "sequentialTestRuns") {
        Some(x) => x,
        None => {
            return None;
        },
    };
    let f_static_code_analysis = match get_bool(v, "staticCodeAnalysis") {
        Some(x) => x,
        None => {
            return None;
        },
    };
    let f_plagiarism_check_supported = match get_bool(v, "plagiarismCheckSupported") {
        Some(x) => x,
        None => {
            return None;
        },
    };
    let f_package_name_required = match get_bool(v, "packageNameRequired") {
        Some(x) => x,
        None => {
            return None;
        },
    };
    let f_checkout_solution_repository_allowed = match get_bool(v, "checkoutSolutionRepositoryAllowed") {
        Some(x) => x,
        None => {
            return None;
        },
    };
    let f_project_types = match get_str_arr(v, "projectTypes") {
        Some(x) => x,
        None => {
            return None;
        },
    };
    Some(LanguageFeature { programming_language: f_programming_language, sequential_test_runs: f_sequential_test_runs, static_code_analysis: f_static_code_analysis, plagiarism_check_supported: f_plagiarism_check_supported, package_name_required: f_package_name_required, checkout_solution_repository_allowed: f_checkout_solution_repository_allowed, project_types: f_project_types })
}

pub open spec fn info_res_shape(v: Jv) -> bool {
    &&& (match jv_obj_get(v, "build"@) {
        Some(w) => build_info_shape(w),
        None => false,
    })
    &&& (match jv_obj_get(v, "java"@) {
        Some(w) => java_info_shape(w),
        None => false,
    })
    &&& (match jv_obj_arr(v, "programmingLanguageFeatures"@) {
        Some(es) => forall|i: int| 0 <= i < es.len() ==> language_feature_shape(#[trigger] es[i]),
        None => false,
    })
    &&& jv_obj_str_arr(v, "features"@) is Some
    &&& jv_obj_str(v, "accountName"@) is Some
    &&& jv_obj_str(v, "versionControlUrl"@) is Some
    &&& jv_obj_str(v, "commitHashURLTemplate"@) is Some
    &&& jv_obj_str(v, "sshCloneURLTemplate"@) is Some
    &&& jv_obj_str(v, "buildPlanURLTemplate"@) is Some
    &&& jv_obj_str_arr(v, "activeProfiles"@) is Some
}

pub open spec fn info_res_matches(p: InfoRes, v: Jv) -> bool {
    &&& build_info_matches(p.build, jv_obj_get(v, "build"@).unwrap())
    &&& java_info_matches(p.java, jv_obj_get(v, "java"@).unwrap())
    &&& (match jv_obj_arr(v, "programmingLanguageFeatures"@) {
        Some(es) => p.programming_language_features@.len() == es.len() && (forall|i: int|
            0 <= i < es.len() ==> language_feature_matches(p.programming_language_features@[i], #[trigger] es[i])),
        None => false,
    })
    &&& str_seq_matches(p.features@, jv_obj_str_arr(v, "features"@).unwrap())
    &&& p.account_name@ == jv_obj_str(v, "accountName"@).unwrap()
    &&& p.version_control_url@ == jv_obj_str(v, "versionControlUrl"@).unwrap()
    &&& p.commit_hash_url_template@ == jv_obj_str(v, "commitHashURLTemplate"@).unwrap()
    &&& p.ssh_clone_url_template@ == jv_obj_str(v, "sshCloneURLTemplate"@).unwrap()
    &&& p.build_plan_url_template@ == jv_obj_str(v, "buildPlanURLTemplate"@).unwrap()
    &&& str_seq_matches(p.active_profiles@, jv_obj_str_arr(v, "activeProfiles"@).unwrap())
}

/// Builds a `InfoRes` from a decoded JSON value; `None` exactly when the
/// value does not have the shape `info_res_shape` asks for.
#[verifier::rlimit(100)]
#[verifier::spinoff_prover]
pub fn info_res_from_json(v: &JsonValue) -> (r: Option<InfoRes>)
    ensures
        r is Some <==> info_res_shape(v@),
        r matches Some(p) ==> info_res_matches(p, v@),
{
    let f_build = match get_val(v, "build") {
        Some(w) => match build_info_from_json(w) {
            Some(x) => x,
            None => {
                return None;
            },
        },
        None => {
            return None;
        },
    };
    let f_java = match get_val(v, "java") {
        Some(w) => match java_info_from_json(w) {
            Some(x) => x,
            None => {
                return None;
            },
        },
        None => {
            return None;
        },
    };
    let arr_f_programming_language_features = match get_arr(v, "programmingLanguageFeatures") {
        Some(a) => a,
        None => {
            return None;
        },
    };
    proof {
        assert(jv_obj_arr(v@, "programmingLanguageFeatures"@).unwrap() == views_of(arr_f_programming_language_features@));
    }
    let f_programming_language_features = match decode_language_feature_array(arr_f_programming_language_features) {
        Some(x) => x,
        None => {
            return None;
        },
    };
    let f_features = match get_str_arr(v, "features") {
        Some(x) => x,
        None => {
            return None;
        },
    };
    let f_account_name = match get_str(v, "accountName") {
        Some(x) => x,
        None => {
            return None;
        },
    };
    let f_version_control_url = match get_str(v, "versionControlUrl") {
        Some(x) => x,
        None => {
            return None;
        },
    };
    let f_commit_hash_url_template = match get_str(v, "commitHashURLTemplate") {
        Some(x) => x,
        None => {
            return None;
        },
    };
    let f_ssh_clone_url_template = match get_str(v, "sshCloneURLTemplate") {
        Some(x) => x,
        None => {
            return None;
        },
    };
    let f_build_plan_url_template = match get_str(v, "buildPlanURLTemplate") {
        Some(x) => x,
        None => {
            return None;
        },
    };
    let f_active_profiles = match get_str_arr(v, "activeProfiles") {
        Some(x) => x,
        None => {
            return None;
        },
    };
    Some(InfoRes { build: f_build, java: f_java, programming_language_features: f_programming_language_features, features: f_features, account_name: f_account_name, version_control_url: f_version_control_url, commit_hash_url_template: f_commit_hash_url_template, ssh_clone_url_template: f_ssh_clone_url_template, build_plan_url_template: f_build_plan_url_template, active_profiles: f_active_profiles })
}

pub fn decode_submission_array(a: &Vec<JsonValue>) -> (r: Option<Vec<Submission>>)
    ensures
        r is Some <==> (forall|i: int| 0 <= i < a@.len() ==> submission_shape(#[trigger] views_of(a@)[i])),
        r matches Some(out) ==> out@.len() == a@.len() && (forall|i: int|
            0 <= i < a@.len() ==> submission_matches(#[trigger] out@[i], views_of(a@)[i])),
{
    let mut out: Vec<Submission> = Vec::new();
    let mut i: usize = 0;
    while i < a.len()
        invariant
            0 <= i <= a@.len(),
            out@.len() == i,
            forall|j: int| 0 <= j < i ==> submission_shape(#[trigger] views_of(a@)[j]),
            forall|j: int| 0 <= j < i ==> submission_matches(#[trigger] out@[j], views_of(a@)[j]),
        decreases a@.len() - i,
    {
        proof {
            assert(views_of(a@)[i as int] == a@[i as int]@);
        }
        match submission_from_json(&a[i]) {
            Some(x) => {
                out.push(x);
            },
            None => {
                return None;
            },
        }
        i = i + 1;
    }
    Some(out)
}

pub fn decode_result_array(a: &Vec<JsonValue>) -> (r: Option<Vec<ParitcipationResult>>)
    ensures
        r is Some <==> (forall|i: int| 0 <= i < a@.len() ==> result_shape(#[trigger] views_of(a@)[i])),
        r matches Some(out) ==> out@.len() == a@.len() && (forall|i: int|
            0 <= i < a@.len() ==> result_matches(#[trigger] out@[i], views_of(a@)[i])),
{
    let mut out: Vec<ParitcipationResult> = Vec::new();
    let mut i: usize = 0;
    while i < a.len()
        invariant
            0 <= i <= a@.len(),
            out@.len() == i,
            forall|j: int| 0 <= j < i ==> result_shape(#[trigger] views_of(a@)[j]),
            forall|j: int| 0 <= j < i ==> result_matches(#[trigger] out@[j], views_of(a@)[j]),
        decreases a@.len() - i,
    {
        proof {
            assert(views_of(a@)[i as int] == a@[i as int]@);
        }
        match result_from_json(&a[i]) {
            Some(x) => {
                out.push(x);
            },
            None => {
                return None;
            },
        }
        i = i + 1;
    }
    Some(out)
}

pub fn decode_student_participation_array(a: &Vec<JsonValue>) -> (r: Option<Vec<StudentParticipation>>)
    ensures
        r is Some <==> (forall|i: int| 0 <= i < a@.len() ==> student_participation_shape(#[trigger] views_of(a@)[i])),
        r matches Some(out) ==> out@.len() == a@.len() && (forall|i: int|
            0 <= i < a@.len() ==> student_participation_matches(#[trigger] out@[i], views_of(a@)[i])),
{
    let mut out: Vec<StudentParticipation> = Vec::new();
    let mut i: usize = 0;
    while i < a.len()
        invariant
            0 <= i <= a@.len(),
            out@.len() == i,
            forall|j: int| 0 <= j < i ==> student_participation_shape(#[trigger] views_of(a@)[j]),
            forall|j: int| 0 <= j < i ==> student_participation_matches(#[trigger] out@[j], views_of(a@)[j]),
        decreases a@.len() - i,
    {
        proof {
            assert(views_of(a@)[i as int] == a@[i as int]@);
        }
        match student_participation_from_json(&a[i]) {
            Some(x) => {
                out.push(x);
            },
            None => {
                return None;
            },
        }
        i = i + 1;
    }
    Some(out)
}

pub fn decode_exercise_array(a: &Vec<JsonValue>) -> (r: Option<Vec<Exercise>>)
    ensures
        r is Some <==> (forall|i: int| 0 <= i < a@.len() ==> exercise_shape(#[trigger] views_of(a@)[i])),
        r matches Some(out) ==> out@.len() == a@.len() && (forall|i: int|
            0 <= i < a@.len() ==> exercise_matches(#[trigger] out@[i], views_of(a@)[i])),
{
    let mut out: Vec<Exercise> = Vec::new();
    let mut i: usize = 0;
    while i < a.len()
        invariant
            0 <= i <= a@.len(),
            out@.len() == i,
            forall|j: int| 0 <= j < i ==> exercise_shape(#[trigger] views_of(a@)[j]),
            forall|j: int| 0 <= j < i ==> exercise_matches(#[trigger] out@[j], views_of(a@)[j]),
        decreases a@.len() - i,
    {
        proof {
            assert(views_of(a@)[i as int] == a@[i as int]@);
        }
        match exercise_from_json(&a[i]) {
            Some(x) => {
                out.push(x);
            },
            None => {
                return None;
            },
        }
        i = i + 1;
    }
    Some(out)
}

pub fn decode_project_array(a: &Vec<JsonValue>) -> (r: Option<Vec<Project>>)
    ensures
        r is Some <==> (forall|i: int| 0 <= i < a@.len() ==> project_shape(#[trigger] views_of(a@)[i])),
        r matches Some(out) ==> out@.len() == a@.len() && (forall|i: int|
            0 <= i < a@.len() ==> project_matches(#[trigger] out@[i], views_of(a@)[i])),
{
    let mut out: Vec<Project> = Vec::new();
    let mut i: usize = 0;
    while i < a.len()
        invariant
            0 <= i <= a@.len(),
            out@.len() == i,
            forall|j: int| 0 <= j < i ==> project_shape(#[trigger] views_of(a@)[j]),
            forall|j: int| 0 <= j < i ==> project_matches(#[trigger] out@[j], views_of(a@)[j]),
        decreases a@.len() - i,
    {
        proof {
            assert(views_of(a@)[i as int] == a@[i as int]@);
        }
        match project_from_json(&a[i]) {
            Some(x) => {
                out.push(x);
            },
            None => {
                return None;
            },
        }
        i = i + 1;
    }
    Some(out)
}

pub fn decode_language_feature_array(a: &Vec<JsonValue>) -> (r: Option<Vec<LanguageFeature>>)
    ensures
        r is Some <==> (forall|i: int| 0 <= i < a@.len() ==> language_feature_shape(#[trigger] views_of(a@)[i])),
        r matches Some(out) ==> out@.len() == a@.len() && (forall|i: int|
            0 <= i < a@.len() ==> language_feature_matches(#[trigger] out@[i], views_of(a@)[i])),
{
    let mut out: Vec<LanguageFeature> = Vec::new();
    let mut i: usize = 0;
    while i < a.len()
        invariant
            0 <= i <= a@.len(),
            out@.len() == i,
            forall|j: int| 0 <= j < i ==> language_feature_shape(#[trigger] views_of(a@)[j]),
            forall|j: int| 0 <= j < i ==> language_feature_matches(#[trigger] out@[j], views_of(a@)[j]),
        decreases a@.len() - i,
    {
        proof {
            assert(views_of(a@)[i as int] == a@[i as int]@);
        }
        match language_feature_from_json(&a[i]) {
            Some(x) => {
                out.push(x);
            },
            None => {
                return None;
            },
        }
        i = i + 1;
    }
    Some(out)
}

/// The dashboard body: a JSON array whose every element has the project
/// shape.
pub open spec fn dashboard_shape(s: Seq<char>) -> bool {
    match spec_parse_json(s) {
        Some(Jv::Arr(es)) => forall|i: int| 0 <= i < es.len() ==> project_shape(#[trigger] es[i]),
        _ => false,
    }
}

pub open spec fn dashboard_matches(fd: ForDashboard, s: Seq<char>) -> bool {
    match spec_parse_json(s) {
        Some(Jv::Arr(es)) => fd.0@.len() == es.len() && (forall|i: int|
            0 <= i < es.len() ==> project_matches(fd.0@[i], #[trigger] es[i])),
        _ => false,
    }
}

/// Decodes a dashboard body. `None` exactly when the text is not a JSON
/// array of well-shaped projects; otherwise every project is mapped field
/// for field.
pub fn decode_for_dashboard(body: &str) -> (r: Option<ForDashboard>)
    ensures
        r is Some <==> dashboard_shape(body@),
        r matches Some(fd) ==> dashboard_matches(fd, body@),
{
    match parse_json(body) {
        Some(v) => match v {
            JsonValue::Arr(a) => {
                proof {
                    lemma_arr_view(a);
                    assert(spec_parse_json(body@) == Some(Jv::Arr(views_of(a@))));
                    assert(spec_parse_json(body@).unwrap()->Arr_0 == views_of(a@));
                }
                match decode_project_array(&a) {
                    Some(ps) => Some(ForDashboard(ps)),
                    None => None,
                }
            },
            _ => None,
        },
        None => None,
    }
}

/// The info body: one JSON object of the `InfoRes` shape.
pub open spec fn info_shape(s: Seq<char>) -> bool {
    match spec_parse_json(s) {
        Some(v) => info_res_shape(v),
        None => false,
    }
}

pub open spec fn info_matches(x: InfoRes, s: Seq<char>) -> bool {
    match spec_parse_json(s) {
        Some(v) => info_res_matches(x, v),
        None => false,
    }
}

/// Decodes a server-info body, field for field.
pub fn decode_info(body: &str) -> (r: Option<InfoRes>)
    ensures
        r is Some <==> info_shape(body@),
        r matches Some(x) ==> info_matches(x, body@),
{
    match parse_json(body) {
        Some(v) => info_res_from_json(&v),
        None => None,
    }
}

} // verus!
