use vstd::prelude::*;
use vstd::string::StringExecFns;

use crate::contact::opt_view;

verus! {

/// The allow-list: whether a declared content type is accepted and, if
/// so, the extension files of that type are stored under.
pub open spec fn spec_extension_for(ct: Seq<char>) -> Option<Seq<char>> {
    if ct == "image/jpeg"@ {
        Some("jpg"@)
    } else if ct == "image/png"@ {
        Some("png"@)
    } else {
        None
    }
}

/// Matches a declared content type against the allow-list
/// (`image/jpeg` -> `jpg`, `image/png` -> `png`).
pub fn extension_for(ct: &String) -> (r: Option<String>)
    ensures
        opt_view(r) == spec_extension_for(ct@),
{
    let jpeg: String = "image/jpeg".to_owned();
    let png: String = "image/png".to_owned();
    if *ct == jpeg {
        Some("jpg".to_owned())
    } else if *ct == png {
        Some("png".to_owned())
    } else {
        None
    }
}

/// What the pipeline does with one part, given its declared content type.
pub enum PartDecision {
    /// Write the part's bytes to a fresh file with this extension.
    Save(String),
    /// No declared content type: abort with 400 "Invalid content type".
    MissingContentType,
    /// A type outside the allow-list: abort with 400 "File type not allowed".
    DisallowedType,
}

#[verifier::ext_equal]
pub ghost enum PartDecisionView {
    Save(Seq<char>),
    MissingContentType,
    DisallowedType,
}

impl View for PartDecision {
    type V = PartDecisionView;

    open spec fn view(&self) -> PartDecisionView {
        match self {
            PartDecision::Save(e) => PartDecisionView::Save(e@),
            PartDecision::MissingContentType => PartDecisionView::MissingContentType,
            PartDecision::DisallowedType => PartDecisionView::DisallowedType,
        }
    }
}

pub open spec fn spec_part_decision(ct: Option<Seq<char>>) -> PartDecisionView {
    match ct {
        None => PartDecisionView::MissingContentType,
        Some(c) => match spec_extension_for(c) {
            Some(e) => PartDecisionView::Save(e),
            None => PartDecisionView::DisallowedType,
        },
    }
}

/// Decides one part of the multipart stream from its declared content
/// type: a part without one aborts the request, a part outside the
/// allow-list aborts it too, an allowed part is saved under its mapped
/// extension. Only the declared type counts; the bytes are not sniffed.
pub fn part_decision(ct: &Option<String>) -> (r: PartDecision)
    ensures
        r@ == spec_part_decision(opt_view(*ct)),
{
    match ct {
        None => PartDecision::MissingContentType,
        Some(c) => match extension_for(c) {
            Some(e) => PartDecision::Save(e),
            None => PartDecision::DisallowedType,
        },
    }
}

/// Relies on uuid::Uuid::new_v4 and its Display implementation: a fresh
/// random version-4 UUID printed in the hyphenated form, which is exactly
/// 36 characters. Nothing else is assumed of the value: it is random, and
/// two calls may (and almost surely do) differ.
#[verifier::external_body]
fn fresh_token() -> (r: String)
    ensures
        r@.len() == 36,
{
    uuid::Uuid::new_v4().to_string()
}

/// The name an uploaded file is stored under, from its random token and
/// its extension.
pub open spec fn spec_filename(token: Seq<char>, ext: Seq<char>) -> Seq<char> {
    "img_"@ + token + "."@ + ext
}

/// Whether `name` has the shape of a stored upload: `img_<token>.<ext>`
/// with a 36-character token.
pub open spec fn is_upload_filename(name: Seq<char>, ext: Seq<char>) -> bool {
    exists|t: Seq<char>| t.len() == 36 && name == spec_filename(t, ext)
}

fn make_filename(token: &String, ext: &String) -> (r: String)
    ensures
        r@ == spec_filename(token@, ext@),
{
    let mut r: String = "img_".to_owned();
    r.append(token.as_str());
    r.append(".");
    r.append(ext.as_str());
    proof {
        assert(r@ =~= spec_filename(token@, ext@));
    }
    r
}

/// A collision-resistant name for one uploaded file:
/// `img_<random-token>.<ext>`.
pub fn upload_filename(ext: &String) -> (r: String)
    ensures
        is_upload_filename(r@, ext@),
        r@.len() == ext@.len() + 41,
{
    let token = fresh_token();
    let r = make_filename(&token, ext);
    proof {
        reveal_strlit("img_");
        reveal_strlit(".");
        assert(token@.len() == 36 && r@ == spec_filename(token@, ext@));
    }
    r
}

/// Relative path of a stored upload inside the uploads directory.
pub open spec fn spec_upload_path(name: Seq<char>) -> Seq<char> {
    "uploads/"@ + name
}

/// The path a fresh upload is written to, under the uploads directory.
pub fn upload_path(filename: &String) -> (r: String)
    ensures
        r@ == spec_upload_path(filename@),
{
    let mut r: String = "uploads/".to_owned();
    r.append(filename.as_str());
    r
}

/// How a whole upload request ends, once I/O faults are set aside: the
/// stream is either consumed in full or aborted at the first bad part.
#[derive(Clone, Copy, PartialEq, Eq, Structural, Debug)]
pub enum UploadResponse {
    /// 200 "File uploaded successfully" — also for a stream of zero parts.
    Uploaded,
    /// 400 "Invalid content type" — a part had no declared content type.
    InvalidContentType,
    /// 400 "File type not allowed" — a declared type outside the allow-list.
    FileTypeNotAllowed,
}

pub open spec fn spec_upload_status(r: UploadResponse) -> int {
    match r {
        UploadResponse::Uploaded => 200,
        UploadResponse::InvalidContentType => 400,
        UploadResponse::FileTypeNotAllowed => 400,
    }
}

pub open spec fn spec_upload_message(r: UploadResponse) -> Seq<char> {
    match r {
        UploadResponse::Uploaded => "File uploaded successfully"@,
        UploadResponse::InvalidContentType => "Invalid content type"@,
        UploadResponse::FileTypeNotAllowed => "File type not allowed"@,
    }
}

impl UploadResponse {
    /// The HTTP status code this outcome is answered with.
    pub fn status_code(&self) -> (r: u16)
        ensures
            r as int == spec_upload_status(*self),
    {
        match self {
            UploadResponse::Uploaded => 200,
            UploadResponse::InvalidContentType => 400,
            UploadResponse::FileTypeNotAllowed => 400,
        }
    }

    /// The text body this outcome is answered with.
    pub fn body_message(&self) -> (r: String)
        ensures
            r@ == spec_upload_message(*self),
    {
        match self {
            UploadResponse::Uploaded => "File uploaded successfully".to_owned(),
            UploadResponse::InvalidContentType => "Invalid content type".to_owned(),
            UploadResponse::FileTypeNotAllowed => "File type not allowed".to_owned(),
        }
    }
}

pub open spec fn parts_view(parts: Seq<Option<String>>) -> Seq<Option<Seq<char>>> {
    parts.map_values(|o: Option<String>| opt_view(o))
}

/// The extensions of the files the pipeline writes for a stream whose
/// parts declare these content types: one file per allowed part, up to
/// but not including the first rejected part. Files written before an
/// abort stay on disk — the pipeline does not roll back.
pub open spec fn spec_upload_exts(parts: Seq<Option<Seq<char>>>) -> Seq<Seq<char>>
    decreases parts.len(),
{
    if parts.len() == 0 {
        Seq::empty()
    } else {
        match spec_part_decision(parts[0]) {
            PartDecisionView::Save(e) => seq![e] + spec_upload_exts(parts.drop_first()),
            _ => Seq::empty(),
        }
    }
}

/// How the pipeline answers a stream whose parts declare these content
/// types: 200 when every part is allowed (an empty stream included),
/// otherwise the abort of the first rejected part.
pub open spec fn spec_upload_response(parts: Seq<Option<Seq<char>>>) -> UploadResponse
    decreases parts.len(),
{
    if parts.len() == 0 {
        UploadResponse::Uploaded
    } else {
        match spec_part_decision(parts[0]) {
            PartDecisionView::Save(_) => spec_upload_response(parts.drop_first()),
            PartDecisionView::MissingContentType => UploadResponse::InvalidContentType,
            PartDecisionView::DisallowedType => UploadResponse::FileTypeNotAllowed,
        }
    }
}

/// One step of unfolding the pipeline specs at position `i` of the stream.
proof fn lemma_upload_unfold(pv: Seq<Option<Seq<char>>>, i: int)
    requires
        0 <= i < pv.len(),
    ensures
        spec_part_decision(pv[i]) is Save ==> {
            &&& spec_upload_exts(pv.skip(i)) =~= seq![
                spec_part_decision(pv[i])->Save_0,
            ] + spec_upload_exts(pv.skip(i + 1))
            &&& spec_upload_response(pv.skip(i)) == spec_upload_response(pv.skip(i + 1))
        },
        spec_part_decision(pv[i]) is MissingContentType ==> {
            &&& spec_upload_exts(pv.skip(i)) =~= Seq::<Seq<char>>::empty()
            &&& spec_upload_response(pv.skip(i)) == UploadResponse::InvalidContentType
        },
        spec_part_decision(pv[i]) is DisallowedType ==> {
            &&& spec_upload_exts(pv.skip(i)) =~= Seq::<Seq<char>>::empty()
            &&& spec_upload_response(pv.skip(i)) == UploadResponse::FileTypeNotAllowed
        },
{
    assert(pv.skip(i).len() == pv.len() - i);
    assert(pv.skip(i)[0] == pv[i]);
    assert(pv.skip(i).drop_first() =~= pv.skip(i + 1));
}

/// What one upload request does, I/O faults aside: the files it writes,
/// in order, and the response it ends with.
pub struct UploadPlan {
    pub files: Vec<String>,
    pub response: UploadResponse,
}

/// Runs the upload pipeline's decisions over the declared content types
/// of a part stream: one freshly named file per allowed part, stopping at
/// the first rejected part, 200 when the whole stream (even an empty one)
/// is consumed. Earlier files survive a later abort.
pub fn plan_upload(parts: &Vec<Option<String>>) -> (p: UploadPlan)
    ensures
        p.response == spec_upload_response(parts_view(parts@)),
        p.files@.len() == spec_upload_exts(parts_view(parts@)).len(),
        forall|i: int|
            0 <= i < p.files@.len() ==> is_upload_filename(
                (#[trigger] p.files@[i])@,
                spec_upload_exts(parts_view(parts@))[i],
            ),
{
    let ghost pv = parts_view(parts@);
    let n = parts.len();
    let mut files: Vec<String> = Vec::new();
    let ghost mut exts_done = Seq::<Seq<char>>::empty();
    let mut i: usize = 0;
    proof {
        assert(pv.skip(0) =~= pv);
        assert(spec_upload_exts(pv) =~= exts_done + spec_upload_exts(pv.skip(0)));
    }
    while i < n
        invariant
            n == parts.len(),
            0 <= i <= n,
            pv == parts_view(parts@),
            pv.len() == n,
            spec_upload_response(pv) == spec_upload_response(pv.skip(i as int)),
            spec_upload_exts(pv) == exts_done + spec_upload_exts(pv.skip(i as int)),
            files@.len() == exts_done.len(),
            forall|j: int|
                0 <= j < files@.len() ==> is_upload_filename(
                    (#[trigger] files@[j])@,
                    exts_done[j],
                ),
        decreases n - i,
    {
        proof {
            assert(pv[i as int] == opt_view(parts@[i as int]));
            lemma_upload_unfold(pv, i as int);
        }
        match part_decision(&parts[i]) {
            PartDecision::Save(ext) => {
                let name = upload_filename(&ext);
                files.push(name);
                proof {
                    exts_done = exts_done.push(ext@);
                    assert(spec_upload_exts(pv) =~= exts_done + spec_upload_exts(
                        pv.skip(i as int + 1),
                    ));
                }
            },
            PartDecision::MissingContentType => {
                proof {
                    assert(spec_upload_exts(pv) =~= exts_done);
                }
                return UploadPlan { files, response: UploadResponse::InvalidContentType };
            },
            PartDecision::DisallowedType => {
                proof {
                    assert(spec_upload_exts(pv) =~= exts_done);
                }
                return UploadPlan { files, response: UploadResponse::FileTypeNotAllowed };
            },
        }
        i = i + 1;
    }
    proof {
        assert(pv.skip(n as int) =~= Seq::<Option<Seq<char>>>::empty());
        assert(spec_upload_exts(pv) =~= exts_done);
    }
    UploadPlan { files, response: UploadResponse::Uploaded }
}

} // verus!
