use project_runner::folders::{
    create_local_projects_folder, delete_failure, delete_site, update_project_path, FolderPlace,
};

fn place(base: Option<&str>, name: Option<&str>) -> FolderPlace {
    FolderPlace { base: base.map(str::to_string), name: name.map(str::to_string) }
}

#[test]
fn name_below_the_given_path() {
    assert_eq!(
        create_local_projects_folder(Some("Sites"), Some("/data")),
        place(Some("/data"), Some("Sites"))
    );
}

#[test]
fn name_below_the_home_directory() {
    assert_eq!(create_local_projects_folder(Some("Sites"), None), place(None, Some("Sites")));
}

#[test]
fn path_alone_is_the_folder() {
    assert_eq!(create_local_projects_folder(None, Some("/data/sites")), place(Some("/data/sites"), None));
}

#[test]
fn default_folder_in_the_home_directory() {
    assert_eq!(create_local_projects_folder(None, None), place(None, Some("Local-Projects")));
}

#[test]
fn moved_folder_lies_in_the_home_directory() {
    assert_eq!(update_project_path("Work"), place(None, Some("Work")));
    assert_eq!(update_project_path(""), place(None, Some("Local-Projects")));
}

#[test]
fn only_an_existing_site_is_deleted() {
    assert_eq!(delete_site(true), Ok(()));
    assert_eq!(delete_site(false), Err("Project path does not exist".to_string()));
    assert_eq!(delete_failure("Permission denied"), "Failed to delete site: Permission denied");
}
