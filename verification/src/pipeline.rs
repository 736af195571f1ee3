//! The submission coordinator. One attempt is a small state machine: the
//! embedding application performs each side effect (the multipart read, the
//! file writes, the avatar fetch, the transaction) and reports its outcome
//! as an [`Event`]; this module decides, and proves, what happens next. The
//! attempt either ends committed — a redirect, with the cleanup guard
//! dismissed — or aborted, surrendering exactly the paths written so far for
//! deletion, so that no asset ever outlives a failed attempt.

use vstd::prelude::*;
use vstd::string::StringExecFns;

use crate::assets::avatar_file_name;
use crate::assets::fresh_uuid_string;
use crate::assets::image_file_name;
use crate::assets::upload_path;
use crate::assets::CleanupGuard;
use crate::avatar::evaluate_avatar_response;
use crate::avatar::spec_status_detail;
use crate::avatar::status_is_success;
use crate::domain::canonical_image_mime;
use crate::domain::MAX_FILE_SIZE;
use crate::errors::CreatePostError;
use crate::extract::RawFields;
use crate::image_guard::guard_image;
use crate::image_guard::png_normalizable;
use crate::image_guard::png_reencoding;
use crate::strutil::spec_ends_with_png;
use crate::strutil::view_opt;
use crate::strutil::view_seq;
use crate::validate::spec_join_nl;
use crate::validate::spec_violations;
use crate::validate::validate_submission;
use crate::validate::ValidatedSubmission;

verus! {

/// Where an attempt stands: which outcome it waits for, or how it ended.
pub enum Phase {
    /// Waiting for the multipart body to be read.
    AwaitFields,
    /// Waiting for the uploaded image's bytes to be written to disk.
    AwaitImageWrite,
    /// Waiting for the avatar fetch's response.
    AwaitAvatarResponse,
    /// Waiting for the fetched avatar's bytes to be written to disk.
    AwaitAvatarWrite,
    /// Waiting for the database transaction to open.
    AwaitBegin,
    /// Waiting for the insert statement's outcome.
    AwaitInsert,
    /// Waiting for the commit's outcome.
    AwaitCommit,
    /// Success terminal: the post is durable, the assets belong to it.
    Committed,
    /// Failure terminal: every written path was surrendered for deletion.
    Aborted,
}

/// The avatar fetch's response, reduced to what the checks read.
pub struct AvatarReply {
    pub status: u16,
    pub content_type: Option<String>,
    pub body: Vec<u8>,
}

/// One outcome reported by the embedding application. Error details arrive
/// as the collaborator's message.
pub enum Event {
    /// The multipart body was read (or failed structurally).
    Fields(Result<RawFields, CreatePostError>),
    /// The uploaded image's write finished.
    ImageWritten(Result<(), String>),
    /// The avatar fetch finished (or failed in transport).
    AvatarResponse(Result<AvatarReply, String>),
    /// The fetched avatar's write finished.
    AvatarWritten(Result<(), String>),
    /// The transaction open finished.
    Began(Result<(), String>),
    /// The insert statement finished.
    Inserted(Result<(), String>),
    /// The commit finished.
    CommitFinished(Result<(), String>),
}

/// What the embedding application must do next.
pub enum Action {
    /// Write these canonical bytes to this path.
    StoreImage { bytes: Vec<u8>, path: String },
    /// Perform the single outbound GET of this URL.
    FetchAvatar { url: String },
    /// Write these canonical bytes to this path.
    StoreAvatar { bytes: Vec<u8>, path: String },
    /// Open the database transaction.
    BeginTransaction,
    /// Run the one insert statement of the transaction with these values.
    InsertPost {
        id: String,
        text: String,
        username: String,
        image_name: Option<String>,
        avatar_name: Option<String>,
    },
    /// Commit the transaction.
    Commit,
    /// Answer with a redirect: the attempt committed.
    Redirect { location: String },
    /// Answer with this error, after deleting every listed path.
    Fail { error: CreatePostError, delete: Vec<String> },
}

/// One submission attempt's state.
pub struct Attempt {
    upload_root: String,
    phase: Phase,
    guard: CleanupGuard,
    text: Option<String>,
    username: Option<String>,
    avatar_url: Option<String>,
    image_name: Option<String>,
    avatar_name: Option<String>,
}

/// An asset's full path under the upload root.
pub open spec fn spec_path_of(root: Seq<char>, name: Seq<char>) -> Seq<char> {
    root + "/"@ + name
}

impl Attempt {
    /// Where the attempt stands.
    pub closed spec fn phase(&self) -> Phase {
        self.phase
    }

    /// The configured upload root.
    pub closed spec fn root(&self) -> Seq<char> {
        self.upload_root@
    }

    /// The paths written so far and still owned by this attempt: the cleanup
    /// guard's contents.
    pub closed spec fn written(&self) -> Seq<Seq<char>> {
        self.guard@
    }

    /// The validated text, once validation passed.
    pub closed spec fn text(&self) -> Option<Seq<char>> {
        view_opt(self.text)
    }

    /// The validated username, once validation passed.
    pub closed spec fn username(&self) -> Option<Seq<char>> {
        view_opt(self.username)
    }

    /// The validated avatar URL, if one was submitted.
    pub closed spec fn avatar_url(&self) -> Option<Seq<char>> {
        view_opt(self.avatar_url)
    }

    /// The uploaded image's file name, once one was drawn.
    pub closed spec fn image_name(&self) -> Option<Seq<char>> {
        view_opt(self.image_name)
    }

    /// The avatar's file name, once one was drawn.
    pub closed spec fn avatar_name(&self) -> Option<Seq<char>> {
        view_opt(self.avatar_name)
    }

    /// The path of the stored upload, as a one- or zero-element sequence.
    pub open spec fn image_paths(&self) -> Seq<Seq<char>> {
        match self.image_name() {
            Some(n) => seq![spec_path_of(self.root(), n)],
            None => Seq::<Seq<char>>::empty(),
        }
    }

    /// The path of the stored avatar, as a one- or zero-element sequence.
    pub open spec fn avatar_paths(&self) -> Seq<Seq<char>> {
        match self.avatar_name() {
            Some(n) => seq![spec_path_of(self.root(), n)],
            None => Seq::<Seq<char>>::empty(),
        }
    }

    /// What holds of every attempt, at every phase: the guard tracks exactly
    /// the assets acknowledged as written, and every value carried was
    /// validated when it entered.
    #[verifier::type_invariant]
    pub closed spec fn inv(&self) -> bool {
        match self.phase {
            Phase::AwaitFields => {
                &&& self.written().len() == 0
                &&& self.text is None
                &&& self.username is None
                &&& self.avatar_url is None
                &&& self.image_name is None
                &&& self.avatar_name is None
            },
            Phase::AwaitImageWrite => {
                &&& self.fields_valid()
                &&& self.image_name is Some
                &&& self.avatar_name is None
                &&& self.written().len() == 0
            },
            Phase::AwaitAvatarResponse => {
                &&& self.fields_valid()
                &&& self.avatar_url is Some
                &&& self.avatar_name is None
                &&& self.written() == self.image_paths()
            },
            Phase::AwaitAvatarWrite => {
                &&& self.fields_valid()
                &&& self.avatar_url is Some
                &&& self.avatar_name is Some
                &&& self.written() == self.image_paths()
            },
            Phase::AwaitBegin => self.assets_stored(),
            Phase::AwaitInsert => self.assets_stored(),
            Phase::AwaitCommit => self.assets_stored(),
            Phase::Committed => self.written().len() == 0,
            Phase::Aborted => self.written().len() == 0,
        }
    }

    /// Both optional assets are on disk and the guard holds exactly their
    /// paths.
    pub closed spec fn assets_stored(&self) -> bool {
        &&& self.fields_valid()
        &&& self.written() == self.image_paths() + self.avatar_paths()
    }

    /// The carried values satisfy the validator's constraints and the file
    /// names have the drawn shape.
    pub closed spec fn fields_valid(&self) -> bool {
        &&& self.text matches Some(t) && crate::validate::text_len_ok(t@)
        &&& self.username matches Some(u) && crate::validate::username_pattern_ok(u@)
        &&& (self.avatar_url matches Some(a) ==> crate::validate::avatar_url_ok(a@))
        &&& (self.image_name matches Some(n) ==> n@.len() == 40 && spec_ends_with_png(n@))
        &&& (self.avatar_name matches Some(n) ==> n@.len() == 47 && spec_ends_with_png(n@))
    }

    /// A fresh attempt for one submission, writing under `upload_root`.
    pub fn new(upload_root: String) -> (a: Attempt)
        ensures
            a.phase() is AwaitFields,
            a.root() == upload_root@,
            a.written().len() == 0,
    {
        Attempt {
            upload_root,
            phase: Phase::AwaitFields,
            guard: CleanupGuard::new(),
            text: None,
            username: None,
            avatar_url: None,
            image_name: None,
            avatar_name: None,
        }
    }
}

/// Whether an event is the outcome the attempt's phase waits for.
pub open spec fn event_fits(a: Attempt, ev: Event) -> bool {
    match ev {
        Event::Fields(_) => a.phase() is AwaitFields,
        Event::ImageWritten(_) => a.phase() is AwaitImageWrite,
        Event::AvatarResponse(_) => a.phase() is AwaitAvatarResponse,
        Event::AvatarWritten(_) => a.phase() is AwaitAvatarWrite,
        Event::Began(_) => a.phase() is AwaitBegin,
        Event::Inserted(_) => a.phase() is AwaitInsert,
        Event::CommitFinished(_) => a.phase() is AwaitCommit,
    }
}

/// The failing step's error, for a [`Action::Fail`].
pub open spec fn fail_error(act: Action) -> CreatePostError {
    match act {
        Action::Fail { error, delete } => error,
        _ => CreatePostError::InternalError,
    }
}

/// The attempt ends aborted: the action is a failure that surrenders exactly
/// the paths written so far, and the attempt keeps none of them.
pub open spec fn aborts(pre: Attempt, post: Attempt, act: Action) -> bool {
    &&& (act matches Action::Fail { error, delete } && view_seq(delete@) == pre.written())
    &&& post.phase() is Aborted
    &&& post.written().len() == 0
}

/// The values that persist across a non-terminal step.
pub open spec fn carries(pre: Attempt, post: Attempt) -> bool {
    &&& post.root() == pre.root()
    &&& post.text() == pre.text()
    &&& post.username() == pre.username()
    &&& post.avatar_url() == pre.avatar_url()
    &&& post.image_name() == pre.image_name()
}

/// After the upload (if any) is on disk: fetch the avatar if one was asked
/// for, otherwise open the transaction — the database write comes only once
/// every asset is stored.
pub open spec fn proceeds_past_assets(post: Attempt, act: Action) -> bool {
    match post.avatar_url() {
        Some(u) => {
            &&& (act matches Action::FetchAvatar { url } && url@ == u)
            &&& post.phase() is AwaitAvatarResponse
            &&& post.avatar_name() is None
        },
        None => {
            &&& act is BeginTransaction
            &&& post.phase() is AwaitBegin
            &&& post.avatar_name() is None
        },
    }
}

/// The step taken from the multipart outcome: validation, the image codec
/// guard on an uploaded image, and the first store order.
pub open spec fn fields_transition(
    pre: Attempt,
    res: Result<RawFields, CreatePostError>,
    post: Attempt,
    act: Action,
) -> bool {
    match res {
        Err(e) => aborts(pre, post, act) && fail_error(act) == e,
        Ok(f) => {
            if f.text is None {
                &&& aborts(pre, post, act)
                &&& (fail_error(act) matches CreatePostError::ValidationError(d) && d@
                    == "Text is required"@)
            } else if f.username is None {
                &&& aborts(pre, post, act)
                &&& (fail_error(act) matches CreatePostError::ValidationError(d) && d@
                    == "Username is required"@)
            } else {
                let vs = spec_violations(
                    f.text->0@,
                    f.username->0@,
                    view_opt(f.user_avatar_url),
                );
                if vs.len() > 0 {
                    &&& aborts(pre, post, act)
                    &&& (fail_error(act) matches CreatePostError::ValidationError(d) && d@
                        == spec_join_nl(vs))
                } else if f.image_data matches Some(img) && !png_normalizable(img@) {
                    &&& aborts(pre, post, act)
                    &&& fail_error(act) is ImageError
                } else {
                    &&& post.root() == pre.root()
                    &&& post.text() == Some(f.text->0@)
                    &&& post.username() == Some(f.username->0@)
                    &&& post.avatar_url() == view_opt(f.user_avatar_url)
                    &&& post.written() == pre.written()
                    &&& match f.image_data {
                        Some(img) => {
                            &&& (act matches Action::StoreImage { bytes, path } && bytes@
                                == png_reencoding(img@) && (post.image_name() matches Some(nm)
                                && nm.len() == 40 && spec_ends_with_png(nm) && path@
                                == spec_path_of(pre.root(), nm)))
                            &&& post.phase() is AwaitImageWrite
                            &&& post.avatar_name() is None
                        },
                        None => post.image_name() is None && proceeds_past_assets(post, act),
                    }
                }
            }
        },
    }
}

/// The step taken from the uploaded image's write outcome.
pub open spec fn image_written_transition(
    pre: Attempt,
    res: Result<(), String>,
    post: Attempt,
    act: Action,
) -> bool {
    match res {
        Err(m) => {
            &&& aborts(pre, post, act)
            &&& (fail_error(act) matches CreatePostError::IoError(d) && d@ == m@)
        },
        Ok(_) => {
            &&& carries(pre, post)
            &&& (pre.image_name() matches Some(nm) && post.written() == pre.written().push(
                spec_path_of(pre.root(), nm),
            ))
            &&& proceeds_past_assets(post, act)
        },
    }
}

/// The step taken from the avatar fetch's outcome: the response checks, the
/// codec guard, and the avatar's store order.
pub open spec fn avatar_response_transition(
    pre: Attempt,
    res: Result<AvatarReply, String>,
    post: Attempt,
    act: Action,
) -> bool {
    match res {
        Err(m) => {
            &&& aborts(pre, post, act)
            &&& (fail_error(act) matches CreatePostError::AvatarDownloadError(d) && d@ == m@)
        },
        Ok(reply) => {
            if !status_is_success(reply.status) {
                &&& aborts(pre, post, act)
                &&& (fail_error(act) matches CreatePostError::AvatarDownloadError(d) && d@
                    == spec_status_detail(reply.status))
            } else if !(reply.content_type matches Some(ct) && ct@ == canonical_image_mime()) {
                &&& aborts(pre, post, act)
                &&& (fail_error(act) matches CreatePostError::AvatarDownloadError(d) && d@
                    == "Invalid avatar image type"@)
            } else if reply.body@.len() > MAX_FILE_SIZE {
                &&& aborts(pre, post, act)
                &&& fail_error(act) is FileTooLarge
            } else if !png_normalizable(reply.body@) {
                &&& aborts(pre, post, act)
                &&& fail_error(act) is ImageError
            } else {
                &&& carries(pre, post)
                &&& post.written() == pre.written()
                &&& (act matches Action::StoreAvatar { bytes, path } && bytes@ == png_reencoding(
                    reply.body@,
                ) && (post.avatar_name() matches Some(nm) && nm.len() == 47 && spec_ends_with_png(
                    nm,
                ) && path@ == spec_path_of(pre.root(), nm)))
                &&& post.phase() is AwaitAvatarWrite
            }
        },
    }
}

/// The step taken from the avatar's write outcome.
pub open spec fn avatar_written_transition(
    pre: Attempt,
    res: Result<(), String>,
    post: Attempt,
    act: Action,
) -> bool {
    match res {
        Err(m) => {
            &&& aborts(pre, post, act)
            &&& (fail_error(act) matches CreatePostError::IoError(d) && d@ == m@)
        },
        Ok(_) => {
            &&& carries(pre, post)
            &&& post.avatar_name() == pre.avatar_name()
            &&& (pre.avatar_name() matches Some(nm) && post.written() == pre.written().push(
                spec_path_of(pre.root(), nm),
            ))
            &&& act is BeginTransaction
            &&& post.phase() is AwaitBegin
        },
    }
}

/// The step taken once the transaction opened: the one insert statement,
/// with a fresh identifier and the validated values.
pub open spec fn began_transition(
    pre: Attempt,
    res: Result<(), String>,
    post: Attempt,
    act: Action,
) -> bool {
    match res {
        Err(m) => {
            &&& aborts(pre, post, act)
            &&& (fail_error(act) matches CreatePostError::DatabaseError(d) && d@ == m@)
        },
        Ok(_) => {
            &&& carries(pre, post)
            &&& post.avatar_name() == pre.avatar_name()
            &&& post.written() == pre.written()
            &&& (act matches Action::InsertPost { id, text, username, image_name, avatar_name }
                && id@.len() == 36 && Some(text@) == pre.text() && Some(username@)
                == pre.username() && view_opt(image_name) == pre.image_name() && view_opt(
                avatar_name,
            ) == pre.avatar_name())
            &&& post.phase() is AwaitInsert
        },
    }
}

/// The step taken from the insert's outcome.
pub open spec fn inserted_transition(
    pre: Attempt,
    res: Result<(), String>,
    post: Attempt,
    act: Action,
) -> bool {
    match res {
        Err(m) => {
            &&& aborts(pre, post, act)
            &&& (fail_error(act) matches CreatePostError::DatabaseError(d) && d@ == m@)
        },
        Ok(_) => {
            &&& carries(pre, post)
            &&& post.avatar_name() == pre.avatar_name()
            &&& post.written() == pre.written()
            &&& act is Commit
            &&& post.phase() is AwaitCommit
        },
    }
}

/// The step taken from the commit's outcome: only a clean commit dismisses
/// the cleanup guard; a failed commit is treated like any earlier failure.
pub open spec fn commit_transition(
    pre: Attempt,
    res: Result<(), String>,
    post: Attempt,
    act: Action,
) -> bool {
    match res {
        Err(m) => {
            &&& aborts(pre, post, act)
            &&& (fail_error(act) matches CreatePostError::DatabaseError(d) && d@ == m@)
        },
        Ok(_) => {
            &&& (act matches Action::Redirect { location } && location@ == "/home"@)
            &&& post.phase() is Committed
            &&& post.written().len() == 0
        },
    }
}

/// The attempt's whole transition relation: one case per awaited outcome.
pub open spec fn transition(pre: Attempt, ev: Event, post: Attempt, act: Action) -> bool {
    match ev {
        Event::Fields(res) => fields_transition(pre, res, post, act),
        Event::ImageWritten(res) => image_written_transition(pre, res, post, act),
        Event::AvatarResponse(res) => avatar_response_transition(pre, res, post, act),
        Event::AvatarWritten(res) => avatar_written_transition(pre, res, post, act),
        Event::Began(res) => began_transition(pre, res, post, act),
        Event::Inserted(res) => inserted_transition(pre, res, post, act),
        Event::CommitFinished(res) => commit_transition(pre, res, post, act),
    }
}

impl Attempt {
    /// Ends the attempt: everything written so far is surrendered for
    /// deletion along with the failing step's error.
    fn abort(upload_root: String, guard: CleanupGuard, error: CreatePostError) -> (r: (
        Attempt,
        Action,
    ))
        ensures
            r.0.phase() is Aborted,
            r.0.written().len() == 0,
            (r.1 matches Action::Fail { error: e, delete } && e == error && view_seq(delete@)
                == guard@),
    {
        let delete = guard.into_paths();
        let a = Attempt {
            upload_root,
            phase: Phase::Aborted,
            guard: CleanupGuard::new(),
            text: None,
            username: None,
            avatar_url: None,
            image_name: None,
            avatar_name: None,
        };
        (a, Action::Fail { error, delete })
    }

    /// Moves past the asset-storing stage: order the avatar fetch if a URL
    /// was submitted, otherwise open the transaction.
    fn advance_past_assets(
        upload_root: String,
        guard: CleanupGuard,
        text: String,
        username: String,
        avatar_url: Option<String>,
        image_name: Option<String>,
    ) -> (r: (Attempt, Action))
        requires
            crate::validate::text_len_ok(text@),
            crate::validate::username_pattern_ok(username@),
            (avatar_url matches Some(a) ==> crate::validate::avatar_url_ok(a@)),
            (image_name matches Some(n) ==> n@.len() == 40 && spec_ends_with_png(n@)),
            guard@ == (match image_name {
                Some(n) => seq![spec_path_of(upload_root@, n@)],
                None => Seq::<Seq<char>>::empty(),
            }),
        ensures
            r.0.root() == upload_root@,
            r.0.written() == guard@,
            r.0.text() == Some(text@),
            r.0.username() == Some(username@),
            r.0.avatar_url() == view_opt(avatar_url),
            r.0.image_name() == view_opt(image_name),
            proceeds_past_assets(r.0, r.1),
    {
        match avatar_url {
            Some(url) => {
                let kept = url.clone();
                let a = Attempt {
                    upload_root,
                    phase: Phase::AwaitAvatarResponse,
                    guard,
                    text: Some(text),
                    username: Some(username),
                    avatar_url: Some(kept),
                    image_name,
                    avatar_name: None,
                };
                (a, Action::FetchAvatar { url })
            },
            None => {
                proof {
                    assert(guard@ =~= (match image_name {
                        Some(n) => seq![spec_path_of(upload_root@, n@)],
                        None => Seq::<Seq<char>>::empty(),
                    }) + Seq::<Seq<char>>::empty());
                }
                let a = Attempt {
                    upload_root,
                    phase: Phase::AwaitBegin,
                    guard,
                    text: Some(text),
                    username: Some(username),
                    avatar_url: None,
                    image_name,
                    avatar_name: None,
                };
                (a, Action::BeginTransaction)
            },
        }
    }

    /// Whether this event is the outcome the attempt currently waits for:
    /// the condition a caller must ensure before [`Self::next`].
    pub fn awaits(&self, ev: &Event) -> (r: bool)
        ensures
            r == event_fits(*self, *ev),
    {
        match ev {
            Event::Fields(_) => matches!(self.phase, Phase::AwaitFields),
            Event::ImageWritten(_) => matches!(self.phase, Phase::AwaitImageWrite),
            Event::AvatarResponse(_) => matches!(self.phase, Phase::AwaitAvatarResponse),
            Event::AvatarWritten(_) => matches!(self.phase, Phase::AwaitAvatarWrite),
            Event::Began(_) => matches!(self.phase, Phase::AwaitBegin),
            Event::Inserted(_) => matches!(self.phase, Phase::AwaitInsert),
            Event::CommitFinished(_) => matches!(self.phase, Phase::AwaitCommit),
        }
    }

    /// Takes one step: consumes the awaited outcome and returns the new
    /// state together with what the application must do next.
    pub fn next(self, ev: Event) -> (r: (Attempt, Action))
        requires
            event_fits(self, ev),
        ensures
            transition(self, ev, r.0, r.1),
    {
        proof {
            use_type_invariant(&self);
        }
        let Attempt {
            upload_root,
            phase: _,
            guard,
            text,
            username,
            avatar_url,
            image_name,
            avatar_name,
        } = self;
        match ev {
            Event::Fields(res) => {
                let f = match res {
                    Ok(f) => f,
                    Err(e) => {
                        return Self::abort(upload_root, guard, e);
                    },
                };
                let vs = match validate_submission(f) {
                    Ok(vs) => vs,
                    Err(e) => {
                        return Self::abort(upload_root, guard, e);
                    },
                };
                let ValidatedSubmission { text: t, username: u, user_avatar_url: au, image_data } =
                    vs;
                match image_data {
                    Some(img) => {
                        let png = match guard_image(&img) {
                            Ok(png) => png,
                            Err(e) => {
                                return Self::abort(upload_root, guard, e);
                            },
                        };
                        let name = image_file_name();
                        let path = upload_path(upload_root.as_str(), name.as_str());
                        let a = Attempt {
                            upload_root,
                            phase: Phase::AwaitImageWrite,
                            guard,
                            text: Some(t),
                            username: Some(u),
                            avatar_url: au,
                            image_name: Some(name),
                            avatar_name: None,
                        };
                        (a, Action::StoreImage { bytes: png, path })
                    },
                    None => {
                        proof {
                            assert(guard@ =~= Seq::<Seq<char>>::empty());
                        }
                        Self::advance_past_assets(upload_root, guard, t, u, au, None)
                    },
                }
            },
            Event::ImageWritten(res) => {
                match res {
                    Err(m) => Self::abort(upload_root, guard, CreatePostError::IoError(m)),
                    Ok(_) => {
                        let name = take_string(image_name);
                        let path = upload_path(upload_root.as_str(), name.as_str());
                        let mut guard = guard;
                        guard.add(path);
                        proof {
                            assert(guard@ =~= seq![
                                spec_path_of(upload_root@, name@),
                            ]);
                        }
                        Self::advance_past_assets(
                            upload_root,
                            guard,
                            take_string(text),
                            take_string(username),
                            avatar_url,
                            Some(name),
                        )
                    },
                }
            },
            Event::AvatarResponse(res) => {
                let reply = match res {
                    Ok(reply) => reply,
                    Err(m) => {
                        return Self::abort(
                            upload_root,
                            guard,
                            CreatePostError::AvatarDownloadError(m),
                        );
                    },
                };
                let AvatarReply { status, content_type, body } = reply;
                match evaluate_avatar_response(status, content_type.as_ref(), body) {
                    Err(e) => Self::abort(upload_root, guard, e),
                    Ok(png) => {
                        let name = avatar_file_name();
                        let path = upload_path(upload_root.as_str(), name.as_str());
                        let a = Attempt {
                            upload_root,
                            phase: Phase::AwaitAvatarWrite,
                            guard,
                            text,
                            username,
                            avatar_url,
                            image_name,
                            avatar_name: Some(name),
                        };
                        (a, Action::StoreAvatar { bytes: png, path })
                    },
                }
            },
            Event::AvatarWritten(res) => {
                match res {
                    Err(m) => Self::abort(upload_root, guard, CreatePostError::IoError(m)),
                    Ok(_) => {
                        let name = take_string(avatar_name);
                        let path = upload_path(upload_root.as_str(), name.as_str());
                        let mut guard = guard;
                        guard.add(path);
                        proof {
                            assert(guard@ =~= (match image_name {
                                Some(n) => seq![spec_path_of(upload_root@, n@)],
                                None => Seq::<Seq<char>>::empty(),
                            }) + seq![spec_path_of(upload_root@, name@)]);
                        }
                        let a = Attempt {
                            upload_root,
                            phase: Phase::AwaitBegin,
                            guard,
                            text,
                            username,
                            avatar_url,
                            image_name,
                            avatar_name: Some(name),
                        };
                        (a, Action::BeginTransaction)
                    },
                }
            },
            Event::Began(res) => {
                match res {
                    Err(m) => Self::abort(upload_root, guard, CreatePostError::DatabaseError(m)),
                    Ok(_) => {
                        let id = fresh_uuid_string();
                        let row_text = clone_present(&text);
                        let row_username = clone_present(&username);
                        let row_image = clone_option(&image_name);
                        let row_avatar = clone_option(&avatar_name);
                        let a = Attempt {
                            upload_root,
                            phase: Phase::AwaitInsert,
                            guard,
                            text,
                            username,
                            avatar_url,
                            image_name,
                            avatar_name,
                        };
                        (
                            a,
                            Action::InsertPost {
                                id,
                                text: row_text,
                                username: row_username,
                                image_name: row_image,
                                avatar_name: row_avatar,
                            },
                        )
                    },
                }
            },
            Event::Inserted(res) => {
                match res {
                    Err(m) => Self::abort(upload_root, guard, CreatePostError::DatabaseError(m)),
                    Ok(_) => {
                        let a = Attempt {
                            upload_root,
                            phase: Phase::AwaitCommit,
                            guard,
                            text,
                            username,
                            avatar_url,
                            image_name,
                            avatar_name,
                        };
                        (a, Action::Commit)
                    },
                }
            },
            Event::CommitFinished(res) => {
                match res {
                    Err(m) => Self::abort(upload_root, guard, CreatePostError::DatabaseError(m)),
                    Ok(_) => {
                        let mut guard = guard;
                        guard.dismiss();
                        let a = Attempt {
                            upload_root,
                            phase: Phase::Committed,
                            guard,
                            text,
                            username,
                            avatar_url,
                            image_name,
                            avatar_name,
                        };
                        (a, Action::Redirect { location: String::from_str("/home") })
                    },
                }
            },
        }
    }
}

/// Law: whichever step fails, the attempt surrenders exactly the paths it
/// wrote so far and keeps none of them — no asset outlives a failed
/// attempt, and nothing else is ever deleted.
pub proof fn lemma_abort_surrenders_all_written(pre: Attempt, ev: Event, post: Attempt, act: Action)
    requires
        transition(pre, ev, post, act),
        act is Fail,
    ensures
        (act matches Action::Fail { delete, .. } ==> view_seq(delete@) == pre.written()),
        post.phase() is Aborted,
        post.written().len() == 0,
{
}

/// Law: a redirect is issued exactly on a clean commit; the attempt is then
/// complete and holds no path for deletion — the cleanup guard was
/// dismissed, and only then.
pub proof fn lemma_redirect_only_after_commit(pre: Attempt, ev: Event, post: Attempt, act: Action)
    requires
        event_fits(pre, ev),
        transition(pre, ev, post, act),
        act is Redirect,
    ensures
        (ev matches Event::CommitFinished(r) && r is Ok),
        pre.phase() is AwaitCommit,
        post.phase() is Committed,
        post.written().len() == 0,
{
}

/// Law: a failed insert — after the assets were already written — aborts
/// with a database error and surrenders both stored asset paths, so the
/// files do not survive the failed attempt.
pub proof fn lemma_insert_failure_deletes_assets(
    pre: Attempt,
    ev: Event,
    post: Attempt,
    act: Action,
)
    requires
        pre.inv(),
        pre.phase() is AwaitInsert,
        transition(pre, ev, post, act),
        (ev matches Event::Inserted(r) && r is Err),
    ensures
        act is Fail,
        fail_error(act) is DatabaseError,
        (act matches Action::Fail { delete, .. } ==> view_seq(delete@) == pre.image_paths()
            + pre.avatar_paths()),
        (pre.image_name() matches Some(n) ==> (act matches Action::Fail { delete, .. } && view_seq(
            delete@,
        ).contains(spec_path_of(pre.root(), n)))),
        (pre.avatar_name() matches Some(n) ==> (act matches Action::Fail { delete, .. } && view_seq(
            delete@,
        ).contains(spec_path_of(pre.root(), n)))),
        post.phase() is Aborted,
{
    match act {
        Action::Fail { delete, .. } => {
            let paths = view_seq(delete@);
            assert(paths == pre.image_paths() + pre.avatar_paths());
            if pre.image_name() is Some {
                assert(paths[0] == spec_path_of(pre.root(), pre.image_name()->0));
            }
            if pre.avatar_name() is Some {
                let i = pre.image_paths().len() as int;
                assert(paths[i] == spec_path_of(pre.root(), pre.avatar_name()->0));
            }
        },
        _ => {},
    }
}

/// Law: an avatar response whose declared content type is not the canonical
/// image type aborts the attempt with a client-caused (400) download error
/// before any avatar store order — only the upload's path, if one was
/// written, is deleted, and no avatar file is ever created.
pub proof fn lemma_avatar_type_mismatch_rejected(
    pre: Attempt,
    ev: Event,
    post: Attempt,
    act: Action,
)
    requires
        pre.inv(),
        pre.phase() is AwaitAvatarResponse,
        transition(pre, ev, post, act),
        (ev matches Event::AvatarResponse(r) && r matches Ok(reply) && status_is_success(
            reply.status,
        ) && !(reply.content_type matches Some(ct) && ct@ == canonical_image_mime())),
    ensures
        act is Fail,
        (fail_error(act) matches CreatePostError::AvatarDownloadError(d) && d@
            == "Invalid avatar image type"@),
        fail_error(act).spec_status_code() == 400,
        (act matches Action::Fail { delete, .. } ==> view_seq(delete@) == pre.image_paths()),
        pre.avatar_name() is None,
        post.phase() is Aborted,
{
}

/// Law: an image part above the byte ceiling fails extraction with the
/// too-large error before anything was written, so the attempt aborts with
/// a client-caused (400) error and deletes nothing.
pub proof fn lemma_oversized_upload_rejected(pre: Attempt, ev: Event, post: Attempt, act: Action)
    requires
        pre.inv(),
        pre.phase() is AwaitFields,
        transition(pre, ev, post, act),
        (ev matches Event::Fields(r) && r matches Err(e) && e is FileTooLarge),
    ensures
        act is Fail,
        fail_error(act) is FileTooLarge,
        fail_error(act).spec_status_code() == 400,
        (act matches Action::Fail { delete, .. } ==> delete@.len() == 0),
{
}

/// Law: an uploaded payload the codec guard rejects aborts the attempt
/// before any store order was issued, so no file is written at all. (A
/// payload with a mismatched declared content type never even reaches the
/// guard: extraction rejects it as a 400-class invalid-file-type error.)
pub proof fn lemma_undecodable_upload_rejected(
    pre: Attempt,
    ev: Event,
    post: Attempt,
    act: Action,
    f: RawFields,
)
    requires
        pre.inv(),
        pre.phase() is AwaitFields,
        transition(pre, ev, post, act),
        ev == Event::Fields(Ok::<RawFields, CreatePostError>(f)),
        f.text is Some,
        f.username is Some,
        spec_violations(f.text->0@, f.username->0@, view_opt(f.user_avatar_url)).len() == 0,
        (f.image_data matches Some(img) && !png_normalizable(img@)),
    ensures
        act is Fail,
        fail_error(act) is ImageError,
        fail_error(act).spec_status_code() == 400,
        (act matches Action::Fail { delete, .. } ==> delete@.len() == 0),
        post.phase() is Aborted,
{
}

/// Law: a post row never references an asset that was not written first.
/// At insert time, every file name the row carries had its write
/// acknowledged, its path still stands in the cleanup guard, and the text
/// and username are the validated ones.
pub proof fn lemma_insert_references_only_stored_assets(
    pre: Attempt,
    ev: Event,
    post: Attempt,
    act: Action,
)
    requires
        pre.inv(),
        pre.phase() is AwaitBegin,
        transition(pre, ev, post, act),
        (ev matches Event::Began(r) && r is Ok),
    ensures
        act is InsertPost,
        (act matches Action::InsertPost { image_name: Some(n), .. } ==> pre.written().contains(
            spec_path_of(pre.root(), n@),
        )),
        (act matches Action::InsertPost { avatar_name: Some(n), .. } ==> pre.written().contains(
            spec_path_of(pre.root(), n@),
        )),
        (act matches Action::InsertPost { text, username, .. } ==> crate::validate::text_len_ok(
            text@,
        ) && crate::validate::username_pattern_ok(username@)),
{
    match act {
        Action::InsertPost { id, text, username, image_name, avatar_name } => {
            if image_name is Some {
                assert(pre.written()[0] == spec_path_of(pre.root(), image_name->0@));
            }
            if avatar_name is Some {
                let i = pre.image_paths().len() as int;
                assert(pre.written()[i] == spec_path_of(pre.root(), avatar_name->0@));
            }
        },
        _ => {},
    }
}

/// Law: a fetched avatar body that passes the status, type and size checks
/// but does not decode aborts the attempt with a client-caused (400) image
/// error before any avatar store order — only the upload's path, if one was
/// written, is deleted, and no avatar file is ever created.
pub proof fn lemma_undecodable_avatar_rejected(pre: Attempt, ev: Event, post: Attempt, act: Action)
    requires
        pre.inv(),
        pre.phase() is AwaitAvatarResponse,
        transition(pre, ev, post, act),
        (ev matches Event::AvatarResponse(r) && r matches Ok(reply) && status_is_success(
            reply.status,
        ) && (reply.content_type matches Some(ct) && ct@ == canonical_image_mime())
            && reply.body@.len() <= MAX_FILE_SIZE && !png_normalizable(reply.body@)),
    ensures
        act is Fail,
        fail_error(act) is ImageError,
        fail_error(act).spec_status_code() == 400,
        (act matches Action::Fail { delete, .. } ==> view_seq(delete@) == pre.image_paths()),
        pre.avatar_name() is None,
        post.phase() is Aborted,
{
}

/// Law: a multipart body missing the text or the username aborts with a
/// 400-class validation error naming the missing field — the text first —
/// and deletes nothing.
pub proof fn lemma_missing_field_rejected(
    pre: Attempt,
    ev: Event,
    post: Attempt,
    act: Action,
    f: RawFields,
)
    requires
        pre.inv(),
        pre.phase() is AwaitFields,
        transition(pre, ev, post, act),
        ev == Event::Fields(Ok::<RawFields, CreatePostError>(f)),
        f.text is None || f.username is None,
    ensures
        act is Fail,
        f.text is None ==> (fail_error(act) matches CreatePostError::ValidationError(d) && d@
            == "Text is required"@),
        (f.text is Some && f.username is None) ==> (fail_error(
            act,
        ) matches CreatePostError::ValidationError(d) && d@ == "Username is required"@),
        fail_error(act).spec_status_code() == 400,
        (act matches Action::Fail { delete, .. } ==> delete@.len() == 0),
{
}

/// The payload of an `Option` known to be present.
fn take_string(o: Option<String>) -> (r: String)
    requires
        o is Some,
    ensures
        Some(r) == o,
{
    match o {
        Some(s) => s,
        None => String::new(),
    }
}

/// A copy of the payload of an `Option` known to be present.
fn clone_present(o: &Option<String>) -> (r: String)
    requires
        o is Some,
    ensures
        Some(r) == *o,
{
    match o {
        Some(s) => s.clone(),
        None => String::new(),
    }
}

/// A copy of an optional string.
fn clone_option(o: &Option<String>) -> (r: Option<String>)
    ensures
        r == *o,
{
    match o {
        Some(s) => Some(s.clone()),
        None => None,
    }
}

} // verus!
