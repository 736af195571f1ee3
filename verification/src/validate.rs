//! Input validation. The extracted fields are held against every constraint
//! at once — length bounds, the username character class, and the avatar
//! URL's structure — and the violations are aggregated into one reported
//! message, rather than stopping at the first.

use vstd::prelude::*;
use vstd::string::StrSliceExecFns;
use vstd::string::StringExecFns;

use crate::domain::MAX_TEXT_LENGTH;
use crate::domain::MIN_TEXT_LENGTH;
use crate::errors::CreatePostError;
use crate::extract::RawFields;
use crate::strutil::ends_with_png;
use crate::strutil::view_seq;
use crate::strutil::spec_ends_with_png;

verus! {

/// What `url::Url::parse` accepts, as validator's URL check applies it.
pub uninterp spec fn url_well_formed(s: Seq<char>) -> bool;

/// Relies on validator's `ValidateUrl` impl for `str`, which returns whether
/// `url::Url::parse` accepts the string; the answer depends on the string
/// alone.
#[verifier::external_body]
fn check_url_syntax(s: &str) -> (r: bool)
    ensures
        r == url_well_formed(s@),
{
    validator::ValidateUrl::validate_url(&s)
}

/// The text length constraint: between 10 and 10,000 characters.
pub open spec fn text_len_ok(t: Seq<char>) -> bool {
    MIN_TEXT_LENGTH <= t.len() <= MAX_TEXT_LENGTH
}

/// The username length constraint: between 2 and 50 characters.
pub open spec fn username_len_ok(u: Seq<char>) -> bool {
    2 <= u.len() <= 50
}

/// The username character class: ASCII letters, digits, underscore, hyphen.
pub open spec fn username_char_ok(c: char) -> bool {
    ('a' <= c && c <= 'z') || ('A' <= c && c <= 'Z') || ('0' <= c && c <= '9') || c == '_' || c
        == '-'
}

/// Every character of the username is in the allowed class.
pub open spec fn username_chars_ok(u: Seq<char>) -> bool {
    forall|i: int| 0 <= i < u.len() ==> username_char_ok(u[i])
}

/// The username pattern as a whole — the allowed class repeated 2 to 50
/// times, anchored at both ends. A username that fails the length bound
/// fails the pattern too, and is reported against both rules.
pub open spec fn username_pattern_ok(u: Seq<char>) -> bool {
    username_len_ok(u) && username_chars_ok(u)
}

/// The avatar URL constraint: a well-formed URL whose path ends in `.png`.
pub open spec fn avatar_url_ok(u: Seq<char>) -> bool {
    url_well_formed(u) && spec_ends_with_png(u)
}

/// See [`username_chars_ok`].
pub fn check_username_chars(u: &str) -> (r: bool)
    ensures
        r == username_chars_ok(u@),
{
    let n = u.unicode_len();
    let mut i: usize = 0;
    while i < n
        invariant
            i <= n,
            n == u@.len(),
            forall|j: int| 0 <= j < i ==> username_char_ok(u@[j]),
        decreases n - i,
    {
        let c = u.get_char(i);
        if !(('a' <= c && c <= 'z') || ('A' <= c && c <= 'Z') || ('0' <= c && c <= '9') || c == '_'
            || c == '-') {
            return false;
        }
        i = i + 1;
    }
    true
}

/// A submission that passed every constraint; immutable once constructed.
#[derive(Debug)]
pub struct ValidatedSubmission {
    pub text: String,
    pub username: String,
    pub user_avatar_url: Option<String>,
    pub image_data: Option<Vec<u8>>,
}

impl ValidatedSubmission {
    /// The invariant every value of this type satisfies.
    pub open spec fn wf(&self) -> bool {
        &&& text_len_ok(self.text@)
        &&& username_pattern_ok(self.username@)
        &&& (self.user_avatar_url matches Some(u) ==> avatar_url_ok(u@))
    }
}

/// The aggregated violation messages for present text, username and optional
/// avatar URL, in the order they are reported.
pub open spec fn spec_violations(t: Seq<char>, u: Seq<char>, av: Option<Seq<char>>) -> Seq<
    Seq<char>,
> {
    (if !text_len_ok(t) {
        seq!["Text must be between 10 and 10,000 characters"@]
    } else {
        Seq::<Seq<char>>::empty()
    }) + (if !username_len_ok(u) {
        seq!["Username must be between 2 and 50 characters"@]
    } else {
        Seq::<Seq<char>>::empty()
    }) + (if !username_pattern_ok(u) {
        seq!["Username contains invalid characters"@]
    } else {
        Seq::<Seq<char>>::empty()
    }) + (match av {
        Some(a) => (if !url_well_formed(a) {
            seq!["Avatar URL must be a valid URL"@]
        } else {
            Seq::<Seq<char>>::empty()
        }) + (if !spec_ends_with_png(a) {
            seq!["Avatar URL must point to a PNG image"@]
        } else {
            Seq::<Seq<char>>::empty()
        }),
        None => Seq::<Seq<char>>::empty(),
    })
}

/// Messages joined into one reported line per violation.
pub open spec fn spec_join_nl(msgs: Seq<Seq<char>>) -> Seq<char>
    decreases msgs.len(),
{
    if msgs.len() == 0 {
        Seq::<char>::empty()
    } else if msgs.len() == 1 {
        msgs[0]
    } else {
        spec_join_nl(msgs.drop_last()) + "\n"@ + msgs.last()
    }
}

fn join_nl(v: &Vec<String>) -> (out: String)
    ensures
        out@ == spec_join_nl(view_seq(v@)),
{
    let mut out = String::new();
    let mut i: usize = 0;
    while i < v.len()
        invariant
            i <= v@.len(),
            out@ == spec_join_nl(view_seq(v@).take(i as int)),
        decreases v@.len() - i,
    {
        if i > 0 {
            out.append("\n");
        }
        out.append(v[i].as_str());
        proof {
            let whole = view_seq(v@);
            assert(whole.take(i + 1).drop_last() =~= whole.take(i as int));
            assert(whole.take(i + 1).last() == v@[i as int]@);
        }
        i = i + 1;
    }
    proof {
        assert(view_seq(v@).take(v@.len() as int) =~= view_seq(v@));
    }
    out
}

/// Law: the aggregated violations report the text bound phrase exactly when
/// the text's length falls strictly outside the bounds, whatever the other
/// fields hold.
pub proof fn lemma_text_bound_reported(t: Seq<char>, u: Seq<char>, av: Option<Seq<char>>)
    ensures
        spec_violations(t, u, av).contains("Text must be between 10 and 10,000 characters"@)
            <==> !text_len_ok(t),
{
    lemma_violation_messages_distinct();
    let vs = spec_violations(t, u, av);
    let m = "Text must be between 10 and 10,000 characters"@;
    if !text_len_ok(t) {
        assert(vs[0] == m);
        assert(vs.contains(m));
    } else {
        if vs.contains(m) {
            let i = choose|i: int| 0 <= i < vs.len() && vs[i] == m;
            assert(false);
        }
    }
}

/// Law: the aggregated violations report the username length message
/// exactly when the username's length falls outside 2 to 50, and the
/// character-class message exactly when the username fails the pattern as a
/// whole, whatever the other fields hold.
pub proof fn lemma_username_violations_reported(t: Seq<char>, u: Seq<char>, av: Option<Seq<char>>)
    ensures
        spec_violations(t, u, av).contains("Username must be between 2 and 50 characters"@)
            <==> !username_len_ok(u),
        spec_violations(t, u, av).contains("Username contains invalid characters"@)
            <==> !username_pattern_ok(u),
{
    lemma_violation_messages_distinct();
    let vs = spec_violations(t, u, av);
    let ml = "Username must be between 2 and 50 characters"@;
    let mc = "Username contains invalid characters"@;
    let pre = (if !text_len_ok(t) {
        seq!["Text must be between 10 and 10,000 characters"@]
    } else {
        Seq::<Seq<char>>::empty()
    });
    if !username_len_ok(u) {
        assert(vs[pre.len() as int] == ml);
        assert(vs.contains(ml));
    } else {
        if vs.contains(ml) {
            let i = choose|i: int| 0 <= i < vs.len() && vs[i] == ml;
            assert(false);
        }
    }
    if !username_pattern_ok(u) {
        let prel = pre + (if !username_len_ok(u) {
            seq![ml]
        } else {
            Seq::<Seq<char>>::empty()
        });
        assert(vs[prel.len() as int] == mc);
        assert(vs.contains(mc));
    } else {
        if vs.contains(mc) {
            let i = choose|i: int| 0 <= i < vs.len() && vs[i] == mc;
            assert(false);
        }
    }
}

/// The five violation messages are pairwise different.
proof fn lemma_violation_messages_distinct()
    ensures
        "Text must be between 10 and 10,000 characters"@
            != "Username must be between 2 and 50 characters"@,
        "Text must be between 10 and 10,000 characters"@
            != "Username contains invalid characters"@,
        "Text must be between 10 and 10,000 characters"@ != "Avatar URL must be a valid URL"@,
        "Text must be between 10 and 10,000 characters"@
            != "Avatar URL must point to a PNG image"@,
        "Username must be between 2 and 50 characters"@
            != "Username contains invalid characters"@,
        "Username must be between 2 and 50 characters"@ != "Avatar URL must be a valid URL"@,
        "Username must be between 2 and 50 characters"@
            != "Avatar URL must point to a PNG image"@,
        "Username contains invalid characters"@ != "Avatar URL must be a valid URL"@,
        "Username contains invalid characters"@ != "Avatar URL must point to a PNG image"@,
{
    reveal_strlit("Text must be between 10 and 10,000 characters");
    reveal_strlit("Username must be between 2 and 50 characters");
    reveal_strlit("Username contains invalid characters");
    reveal_strlit("Avatar URL must be a valid URL");
    reveal_strlit("Avatar URL must point to a PNG image");
    assert("Text must be between 10 and 10,000 characters"@[0] == 'T');
    assert("Username must be between 2 and 50 characters"@[0] == 'U');
    assert("Username contains invalid characters"@[0] == 'U');
    assert("Avatar URL must be a valid URL"@[0] == 'A');
    assert("Avatar URL must point to a PNG image"@[0] == 'A');
    assert("Text must be between 10 and 10,000 characters"@.len() == 45);
    assert("Username must be between 2 and 50 characters"@.len() == 44);
    assert("Username contains invalid characters"@.len() == 36);
    assert("Avatar URL must be a valid URL"@.len() == 30);
    assert("Avatar URL must point to a PNG image"@.len() == 36);
    assert("Username must be between 2 and 50 characters"@[9] == 'm');
    assert("Username contains invalid characters"@[9] == 'c');
}

/// Validates the extracted fields.
///
/// Text and username must be present; a missing one is reported by name, the
/// text first. Present values are held against every constraint at once and
/// the violations are aggregated, in a fixed order, into a single validation
/// error of one line per violated rule. With no violation the result carries
/// the fields through unchanged.
pub fn validate_submission(f: RawFields) -> (r: Result<ValidatedSubmission, CreatePostError>)
    ensures
        f.text is None ==> (r matches Err(e) && e matches CreatePostError::ValidationError(d) && d@
            == "Text is required"@),
        f.text is Some && f.username is None ==> (r matches Err(e)
            && e matches CreatePostError::ValidationError(d) && d@ == "Username is required"@),
        (f.text is Some && f.username is Some) ==> {
            let vs = spec_violations(
                f.text->0@,
                f.username->0@,
                match f.user_avatar_url {
                    Some(a) => Some(a@),
                    None => None,
                },
            );
            &&& (vs.len() == 0 <==> r is Ok)
            &&& (r matches Ok(v) ==> v.wf() && v.text == f.text->0 && v.username == f.username->0
                && v.user_avatar_url == f.user_avatar_url && v.image_data == f.image_data)
            &&& (r matches Err(e) ==> e matches CreatePostError::ValidationError(d) && d@
                == spec_join_nl(vs))
        },
{
    let text = match f.text {
        Some(t) => t,
        None => {
            return Err(CreatePostError::ValidationError(String::from_str("Text is required")));
        },
    };
    let username = match f.username {
        Some(u) => u,
        None => {
            return Err(CreatePostError::ValidationError(String::from_str("Username is required")));
        },
    };
    let mut msgs: Vec<String> = Vec::new();
    let tl = text.as_str().unicode_len();
    if tl < MIN_TEXT_LENGTH || tl > MAX_TEXT_LENGTH {
        msgs.push(String::from_str("Text must be between 10 and 10,000 characters"));
    }
    let ul = username.as_str().unicode_len();
    let len_ok = 2 <= ul && ul <= 50;
    if !len_ok {
        msgs.push(String::from_str("Username must be between 2 and 50 characters"));
    }
    let chars_ok = check_username_chars(username.as_str());
    if !(len_ok && chars_ok) {
        msgs.push(String::from_str("Username contains invalid characters"));
    }
    match &f.user_avatar_url {
        Some(u) => {
            if !check_url_syntax(u.as_str()) {
                msgs.push(String::from_str("Avatar URL must be a valid URL"));
            }
            if !ends_with_png(u.as_str()) {
                msgs.push(String::from_str("Avatar URL must point to a PNG image"));
            }
        },
        None => {},
    }
    proof {
        assert(view_seq(msgs@) =~= spec_violations(
            text@,
            username@,
            match f.user_avatar_url {
                Some(a) => Some(a@),
                None => None,
            },
        ));
    }
    if msgs.len() == 0 {
        Ok(
            ValidatedSubmission {
                text,
                username,
                user_avatar_url: f.user_avatar_url,
                image_data: f.image_data,
            },
        )
    } else {
        Err(CreatePostError::ValidationError(join_nl(&msgs)))
    }
}

} // verus!
