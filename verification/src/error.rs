//! The failures of a fetch: one closed enumeration, each kind with the
//! context needed to diagnose it.

use vstd::prelude::*;
use vstd::string::*;

verus! {

/// The kind of a failure, without its context.
#[derive(Clone, Copy, Debug, PartialEq, Eq, Structural)]
pub enum ErrorKind {
    ConfigMissing,
    RepoLoad,
    TargetName,
    TargetMissing,
    TargetRead,
    DecompressionError,
    OpenImageFile,
    WriteUpdate,
}

/// Why a fetch failed.
#[derive(Debug, PartialEq, Eq)]
pub enum FetchError {
    /// The configuration lacks the repository, or a part of its definition.
    ConfigMissing { missing: String },
    /// Trust in the repository could not be established.
    RepoLoad { metadata_base_url: String, cause: String },
    /// The target's name is not one that may be used.
    TargetName { target: String, cause: String },
    /// The repository does not list the target.
    TargetMissing { target: String },
    /// The repository lists the target, but reading it failed.
    TargetRead { target: String, cause: String },
    /// The target's content is not a sound, complete LZ4 frame.
    DecompressionError { target: String, cause: String },
    /// The destination file could not be opened.
    OpenImageFile { path: String, cause: String },
    /// Writing to the destination file failed.
    WriteUpdate { path: String, cause: String },
}

/// A [`FetchError`] as a mathematical value.
pub enum FetchErrorView {
    ConfigMissing { missing: Seq<char> },
    RepoLoad { metadata_base_url: Seq<char>, cause: Seq<char> },
    TargetName { target: Seq<char>, cause: Seq<char> },
    TargetMissing { target: Seq<char> },
    TargetRead { target: Seq<char>, cause: Seq<char> },
    DecompressionError { target: Seq<char>, cause: Seq<char> },
    OpenImageFile { path: Seq<char>, cause: Seq<char> },
    WriteUpdate { path: Seq<char>, cause: Seq<char> },
}

impl FetchErrorView {
    /// The kind of this failure.
    pub open spec fn kind(self) -> ErrorKind {
        match self {
            FetchErrorView::ConfigMissing { .. } => ErrorKind::ConfigMissing,
            FetchErrorView::RepoLoad { .. } => ErrorKind::RepoLoad,
            FetchErrorView::TargetName { .. } => ErrorKind::TargetName,
            FetchErrorView::TargetMissing { .. } => ErrorKind::TargetMissing,
            FetchErrorView::TargetRead { .. } => ErrorKind::TargetRead,
            FetchErrorView::DecompressionError { .. } => ErrorKind::DecompressionError,
            FetchErrorView::OpenImageFile { .. } => ErrorKind::OpenImageFile,
            FetchErrorView::WriteUpdate { .. } => ErrorKind::WriteUpdate,
        }
    }

    /// The line shown to the operator: the kind in words, then the context.
    pub open spec fn message(self) -> Seq<char> {
        match self {
            FetchErrorView::ConfigMissing { missing } => "Infra.toml is missing "@ + missing,
            FetchErrorView::RepoLoad { metadata_base_url, cause } =>
                "Failed to load repo from metadata URL '"@ + metadata_base_url + "': "@ + cause,
            FetchErrorView::TargetName { target, cause } => "Invalid target name '"@ + target
                + "': "@ + cause,
            FetchErrorView::TargetMissing { target } => "Missing target: "@ + target,
            FetchErrorView::TargetRead { target, cause } => "Failed to read target '"@ + target
                + "' from repo: "@ + cause,
            FetchErrorView::DecompressionError { target, cause } =>
                "Failed to decode LZ4-compressed target "@ + target + ": "@ + cause,
            FetchErrorView::OpenImageFile { path, cause } => "Failed to open image file path "@
                + path + ": "@ + cause,
            FetchErrorView::WriteUpdate { path, cause } => "Failed writing update data to file "@
                + path + ": "@ + cause,
        }
    }
}

impl View for FetchError {
    type V = FetchErrorView;

    open spec fn view(&self) -> FetchErrorView {
        match self {
            FetchError::ConfigMissing { missing } => FetchErrorView::ConfigMissing {
                missing: missing@,
            },
            FetchError::RepoLoad { metadata_base_url, cause } => FetchErrorView::RepoLoad {
                metadata_base_url: metadata_base_url@,
                cause: cause@,
            },
            FetchError::TargetName { target, cause } => FetchErrorView::TargetName {
                target: target@,
                cause: cause@,
            },
            FetchError::TargetMissing { target } => FetchErrorView::TargetMissing {
                target: target@,
            },
            FetchError::TargetRead { target, cause } => FetchErrorView::TargetRead {
                target: target@,
                cause: cause@,
            },
            FetchError::DecompressionError { target, cause } => FetchErrorView::DecompressionError {
                target: target@,
                cause: cause@,
            },
            FetchError::OpenImageFile { path, cause } => FetchErrorView::OpenImageFile {
                path: path@,
                cause: cause@,
            },
            FetchError::WriteUpdate { path, cause } => FetchErrorView::WriteUpdate {
                path: path@,
                cause: cause@,
            },
        }
    }
}

/// `head`, `subject`, `link` and `cause` joined in this order.
fn join4(head: &str, subject: &str, link: &str, cause: &str) -> (text: String)
    ensures
        text@ == head@ + subject@ + link@ + cause@,
{
    String::from_str(head).concat(subject).concat(link).concat(cause)
}

impl Clone for FetchError {
    fn clone(&self) -> (copy: Self)
        ensures
            copy@ == self@,
    {
        match self {
            FetchError::ConfigMissing { missing } => FetchError::ConfigMissing {
                missing: missing.clone(),
            },
            FetchError::RepoLoad { metadata_base_url, cause } => FetchError::RepoLoad {
                metadata_base_url: metadata_base_url.clone(),
                cause: cause.clone(),
            },
            FetchError::TargetName { target, cause } => FetchError::TargetName {
                target: target.clone(),
                cause: cause.clone(),
            },
            FetchError::TargetMissing { target } => FetchError::TargetMissing {
                target: target.clone(),
            },
            FetchError::TargetRead { target, cause } => FetchError::TargetRead {
                target: target.clone(),
                cause: cause.clone(),
            },
            FetchError::DecompressionError { target, cause } => FetchError::DecompressionError {
                target: target.clone(),
                cause: cause.clone(),
            },
            FetchError::OpenImageFile { path, cause } => FetchError::OpenImageFile {
                path: path.clone(),
                cause: cause.clone(),
            },
            FetchError::WriteUpdate { path, cause } => FetchError::WriteUpdate {
                path: path.clone(),
                cause: cause.clone(),
            },
        }
    }
}

impl FetchError {
    /// The kind of this failure.
    pub fn kind(&self) -> (kind: ErrorKind)
        ensures
            kind == self@.kind(),
    {
        match self {
            FetchError::ConfigMissing { .. } => ErrorKind::ConfigMissing,
            FetchError::RepoLoad { .. } => ErrorKind::RepoLoad,
            FetchError::TargetName { .. } => ErrorKind::TargetName,
            FetchError::TargetMissing { .. } => ErrorKind::TargetMissing,
            FetchError::TargetRead { .. } => ErrorKind::TargetRead,
            FetchError::DecompressionError { .. } => ErrorKind::DecompressionError,
            FetchError::OpenImageFile { .. } => ErrorKind::OpenImageFile,
            FetchError::WriteUpdate { .. } => ErrorKind::WriteUpdate,
        }
    }

    /// The line shown to the operator.
    pub fn message(&self) -> (text: String)
        ensures
            text@ == self@.message(),
    {
        match self {
            FetchError::ConfigMissing { missing } => String::from_str("Infra.toml is missing ").concat(
                missing.as_str(),
            ),
            FetchError::RepoLoad { metadata_base_url, cause } => join4(
                "Failed to load repo from metadata URL '",
                metadata_base_url.as_str(),
                "': ",
                cause.as_str(),
            ),
            FetchError::TargetName { target, cause } => join4(
                "Invalid target name '",
                target.as_str(),
                "': ",
                cause.as_str(),
            ),
            FetchError::TargetMissing { target } => String::from_str("Missing target: ").concat(
                target.as_str(),
            ),
            FetchError::TargetRead { target, cause } => join4(
                "Failed to read target '",
                target.as_str(),
                "' from repo: ",
                cause.as_str(),
            ),
            FetchError::DecompressionError { target, cause } => join4(
                "Failed to decode LZ4-compressed target ",
                target.as_str(),
                ": ",
                cause.as_str(),
            ),
            FetchError::OpenImageFile { path, cause } => join4(
                "Failed to open image file path ",
                path.as_str(),
                ": ",
                cause.as_str(),
            ),
            FetchError::WriteUpdate { path, cause } => join4(
                "Failed writing update data to file ",
                path.as_str(),
                ": ",
                cause.as_str(),
            ),
        }
    }
}

} // verus!
