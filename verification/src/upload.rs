//! Checks on an uploaded attachment, made before anything is written.
use crate::response::{ErrorKind, ErrorKindView};
use vstd::prelude::*;
use vstd::string::StrSliceExecFns;

verus! {

/// An uploaded file as it arrives: the name the client declared, the number of
/// bytes received, and the transient location where the bytes wait.
#[derive(Debug, Clone, PartialEq, Eq)]
pub struct UploadCandidate {
    pub file_name: Option<String>,
    pub size: usize,
    pub path: String,
}

/// The mathematical content of an [`UploadCandidate`].
pub struct UploadCandidateView {
    pub file_name: Option<Seq<char>>,
    pub size: nat,
    pub path: Seq<char>,
}

impl View for UploadCandidate {
    type V = UploadCandidateView;

    open spec fn view(&self) -> UploadCandidateView {
        UploadCandidateView {
            file_name: match self.file_name {
                Some(name) => Some(name@),
                None => None,
            },
            size: self.size as nat,
            path: self.path@,
        }
    }
}

/// The name an upload goes by. One that declares none is called `null`.
pub open spec fn declared_name(file_name: Option<Seq<char>>) -> Seq<char> {
    match file_name {
        Some(name) => name,
        None => "null"@,
    }
}

/// The last four characters of a name that has at least four.
pub open spec fn last_four(name: Seq<char>) -> Seq<char>
    recommends
        name.len() >= 4,
{
    name.subrange(name.len() - 4, name.len() as int)
}

/// A name is accepted when its last four characters spell one of the listed
/// extensions, letter case included. A shorter name is never accepted.
pub open spec fn has_accepted_extension(name: Seq<char>) -> bool {
    &&& name.len() >= 4
    &&& (last_four(name) == ".jpg"@ || last_four(name) == ".png"@ || last_four(name)
        == ".jpeg"@)
}

/// The first check that an upload fails, if any: the type of the file, then
/// that it is not empty, then that it is not over the limit.
pub open spec fn upload_defect(name: Seq<char>, size: nat, max_size: nat) -> Option<
    ErrorKindView,
> {
    if !has_accepted_extension(name) {
        Some(ErrorKindView::InvalidFileType)
    } else if size == 0 {
        Some(ErrorKindView::InvalidFileSize)
    } else if size > max_size {
        Some(ErrorKindView::FileTooLarge)
    } else {
        None
    }
}

/// Five characters never fit in the last four: of the listed extensions only
/// the two short ones can ever be matched.
pub proof fn lemma_accepted_extensions(name: Seq<char>)
    ensures
        has_accepted_extension(name) <==> name.len() >= 4 && (last_four(name) == ".jpg"@
            || last_four(name) == ".png"@),
{
    reveal_strlit(".jpeg");
    if name.len() >= 4 {
        assert(last_four(name).len() == 4);
        assert(".jpeg"@.len() == 5);
    }
}

/// Tells whether a file name ends in an accepted extension.
pub fn check_extension(name: &str) -> (accepted: bool)
    ensures
        accepted == has_accepted_extension(name@),
{
    let len = name.unicode_len();
    if len < 4 {
        return false;
    }
    let c0 = name.get_char(len - 4);
    let c1 = name.get_char(len - 3);
    let c2 = name.get_char(len - 2);
    let c3 = name.get_char(len - 1);
    let jpg = c0 == '.' && c1 == 'j' && c2 == 'p' && c3 == 'g';
    let png = c0 == '.' && c1 == 'p' && c2 == 'n' && c3 == 'g';
    proof {
        reveal_strlit(".jpg");
        reveal_strlit(".png");
        reveal_strlit(".jpeg");
        let tail = last_four(name@);
        assert(tail.len() == 4);
        assert(tail[0] == c0 && tail[1] == c1 && tail[2] == c2 && tail[3] == c3);
        assert(jpg <==> tail =~= ".jpg"@);
        assert(png <==> tail =~= ".png"@);
    }
    jpg || png
}

/// Validates an upload against the configured size limit.
///
/// Succeeds exactly when the upload has no defect, and otherwise reports the
/// first one.
pub fn validate_upload(candidate: &UploadCandidate, max_file_size: u64) -> (result: Result<
    (),
    ErrorKind,
>)
    ensures
        match result {
            Ok(()) => upload_defect(
                declared_name(candidate@.file_name),
                candidate@.size,
                max_file_size as nat,
            ) is None,
            Err(e) => upload_defect(
                declared_name(candidate@.file_name),
                candidate@.size,
                max_file_size as nat,
            ) == Some(e@),
        },
{
    let accepted = match &candidate.file_name {
        Some(name) => check_extension(name.as_str()),
        None => check_extension("null"),
    };
    if !accepted {
        Err(ErrorKind::InvalidFileType)
    } else if candidate.size == 0 {
        Err(ErrorKind::InvalidFileSize)
    } else if candidate.size as u64 > max_file_size {
        Err(ErrorKind::FileTooLarge)
    } else {
        Ok(())
    }
}

} // verus!
