//! Where the folder of local projects lies, and when a project's directory
//! may be deleted.

use vstd::prelude::*;
use vstd::string::StringExecFns;

verus! {

/// The place of a folder: a name below a directory.
#[derive(Clone, Debug, PartialEq, Eq)]
pub struct FolderPlace {
    /// The directory, or `None` for the home directory of the user.
    pub base: Option<String>,
    /// The name of the folder below it, or `None` for the directory itself.
    pub name: Option<String>,
}

/// The model of a `FolderPlace`.
pub ghost struct FolderPlaceView {
    pub base: Option<Seq<char>>,
    pub name: Option<Seq<char>>,
}

impl View for FolderPlace {
    type V = FolderPlaceView;

    open spec fn view(&self) -> FolderPlaceView {
        FolderPlaceView { base: self.base.deep_view(), name: self.name.deep_view() }
    }
}

/// The model of a text that may be missing.
pub open spec fn text_of(text: Option<&str>) -> Option<Seq<char>> {
    match text {
        Some(t) => Some(t@),
        None => None,
    }
}

/// Where the folder of local projects is made: a given name lies below
/// the given path, or below the home directory where no path is given; a
/// path given alone is the folder itself; and with nothing given the
/// folder is `Local-Projects` in the home directory.
pub fn create_local_projects_folder(folder_name: Option<&str>, path: Option<&str>) -> (place:
    FolderPlace)
    ensures
        place@.base == text_of(path),
        place@.name == (if folder_name is None && path is None {
            Some("Local-Projects"@)
        } else {
            text_of(folder_name)
        }),
{
    let base = match path {
        Some(p) => Some(p.to_owned()),
        None => None,
    };
    let name = match folder_name {
        Some(n) => Some(n.to_owned()),
        None => match path {
            Some(_) => None,
            None => Some("Local-Projects".to_owned()),
        },
    };
    FolderPlace { base, name }
}

/// Where the folder of local projects is moved to: `new_path` below the
/// home directory, or `Local-Projects` there where `new_path` is empty.
pub fn update_project_path(new_path: &str) -> (place: FolderPlace)
    ensures
        place@.base is None,
        place@.name == Some(
            if new_path@.len() == 0 {
                "Local-Projects"@
            } else {
                new_path@
            },
        ),
{
    let name = if new_path.is_empty() {
        "Local-Projects".to_owned()
    } else {
        new_path.to_owned()
    };
    FolderPlace { base: None, name: Some(name) }
}

/// Whether the directory of a project is deleted: only a directory that
/// exists is, and a missing one is an error.
pub fn delete_site(path_exists: bool) -> (r: Result<(), String>)
    ensures
        r is Ok <==> path_exists,
        r matches Err(text) ==> text@ == "Project path does not exist"@,
{
    if path_exists {
        Ok(())
    } else {
        Err("Project path does not exist".to_owned())
    }
}

/// The text for a directory that could not be deleted.
pub fn delete_failure(reason: &str) -> (text: String)
    ensures
        text@ == "Failed to delete site: "@ + reason@,
{
    let mut text = "Failed to delete site: ".to_owned();
    text.append(reason);
    text
}

} // verus!
