//! Copies driven against a remote store that lives in memory.

use gdrive::common::drive_file::{is_directory, FileHandle, MIME_TYPE_DRIVE_FOLDER};
use gdrive::files::copy_folder::machine::{ListSortOrder, MAX_FILES};
use gdrive::files::copy_folder::{
    copy_folder, copy_folder_inner, Action, Config, CopyFolderConfig, Error, Reply,
};

/// An object of the store.
#[derive(Clone, Debug)]
struct Object {
    id: String,
    name: String,
    folder: bool,
    parent: String,
    content: String,
    /// The listing of its folder shows it without id.
    hide_id: bool,
    /// The listing of its folder shows it without name.
    hide_name: bool,
}

/// A store in memory. A listing shows the children of a folder in the order
/// in which they were put there.
struct Drive {
    objects: Vec<Object>,
    made: usize,
    /// Every request, in the order it came.
    log: Vec<String>,
    /// The request that fails, as it stands in the log.
    fails: Option<String>,
    /// New objects are reported without id.
    forgets_ids: bool,
}

impl Drive {
    fn new() -> Drive {
        Drive { objects: Vec::new(), made: 0, log: Vec::new(), fails: None, forgets_ids: false }
    }

    fn put(&mut self, id: &str, name: &str, folder: bool, parent: &str, content: &str) {
        self.objects.push(Object {
            id: id.to_string(),
            name: name.to_string(),
            folder,
            parent: parent.to_string(),
            content: content.to_string(),
            hide_id: false,
            hide_name: false,
        });
    }

    fn folder(&mut self, id: &str, name: &str, parent: &str) {
        self.put(id, name, true, parent, "");
    }

    fn file(&mut self, id: &str, name: &str, parent: &str, content: &str) {
        self.put(id, name, false, parent, content);
    }

    fn find(&self, id: &str) -> Option<&Object> {
        self.objects.iter().find(|object| object.id == id)
    }

    fn children(&self, parent: &str) -> Vec<&Object> {
        self.objects.iter().filter(|object| object.parent == parent).collect()
    }

    fn handle(object: &Object) -> FileHandle {
        FileHandle {
            id: if object.hide_id { None } else { Some(object.id.clone()) },
            name: if object.hide_name { None } else { Some(object.name.clone()) },
            mime_type: Some(if object.folder {
                MIME_TYPE_DRIVE_FOLDER.to_string()
            } else {
                "text/plain".to_string()
            }),
        }
    }

    fn fresh(&mut self) -> String {
        self.made += 1;
        format!("new-{}", self.made)
    }

    fn made_handle(&self, id: &str) -> FileHandle {
        let mut handle = Drive::handle(self.find(id).unwrap());
        if self.forgets_ids {
            handle.id = None;
        }
        handle
    }

    /// Does what `action` asks for and answers it.
    fn serve(&mut self, action: &Action<String>) -> Reply<String> {
        let line = match action {
            Action::OpenSession => "session".to_string(),
            Action::GetFile { file_id } => format!("get {}", file_id),
            Action::ListFiles { folder_id, .. } => format!("list {}", folder_id),
            Action::CreateDirectory { name, parent_id } => format!("mkdir {} in {}", name, parent_id),
            Action::CopyFile { file_id, to_folder_id } => format!("copy {} to {}", file_id, to_folder_id),
            Action::Rename { file_id, name } => format!("rename {} to {}", file_id, name),
            Action::Finish(_) => panic!("nothing is asked of the store once the copy has ended"),
        };
        self.log.push(line.clone());
        let failed = self.fails.as_deref() == Some(line.as_str());
        let cause = format!("{} failed", line);
        match action {
            Action::OpenSession => Reply::Session(if failed { Err(cause) } else { Ok(()) }),
            Action::GetFile { file_id } => Reply::File(match self.find(file_id) {
                Some(object) if !failed => Ok(Drive::handle(object)),
                _ => Err(cause),
            }),
            Action::ListFiles { folder_id, order_by, max_files } => {
                assert_eq!(*order_by, ListSortOrder::FolderModifiedName);
                assert_eq!(*max_files, 1000);
                if failed {
                    Reply::Files(Err(cause))
                } else {
                    let listed = self.children(folder_id);
                    Reply::Files(Ok(listed.into_iter().take(*max_files).map(Drive::handle).collect()))
                }
            },
            Action::CreateDirectory { name, parent_id } => {
                if failed {
                    return Reply::File(Err(cause));
                }
                let id = self.fresh();
                self.folder(&id, name, parent_id);
                Reply::File(Ok(self.made_handle(&id)))
            },
            Action::CopyFile { file_id, to_folder_id } => {
                let content = match self.find(file_id) {
                    Some(object) if !failed => object.content.clone(),
                    _ => return Reply::File(Err(cause)),
                };
                let name = format!("Copy of {}", self.find(file_id).unwrap().name);
                let id = self.fresh();
                self.file(&id, &name, to_folder_id, &content);
                Reply::File(Ok(self.made_handle(&id)))
            },
            Action::Rename { file_id, name } => {
                if failed {
                    return Reply::Renamed(Err(cause));
                }
                match self.objects.iter_mut().find(|object| object.id == *file_id) {
                    Some(object) => {
                        object.name = name.clone();
                        Reply::Renamed(Ok(()))
                    },
                    None => Reply::Renamed(Err(cause)),
                }
            },
            Action::Finish(_) => unreachable!(),
        }
    }

    /// The requests that changed the store, in the order they came.
    fn mutations(&self) -> Vec<String> {
        self.log
            .iter()
            .filter(|line| {
                line.starts_with("mkdir") || line.starts_with("copy") || line.starts_with("rename")
            })
            .cloned()
            .collect()
    }

    /// Name, kind and content of the children of `parent`, in listing order.
    fn shape(&self, parent: &str) -> Vec<(String, bool, String)> {
        self.children(parent)
            .into_iter()
            .map(|object| (object.name.clone(), object.folder, object.content.clone()))
            .collect()
    }

    fn named(&self, parent: &str, name: &str) -> String {
        self.children(parent).into_iter().find(|object| object.name == name).unwrap().id.clone()
    }
}

/// Runs the copy from `src` to `to` against `drive`, to its end.
fn run(drive: &mut Drive, src: &str, to: &str) -> Result<(), Error<String>> {
    let config = Config { src_folder_id: src.to_string(), to_folder_id: to.to_string() };
    let (mut state, mut action) = copy_folder::<String>(config);
    loop {
        if let Action::Finish(outcome) = action {
            assert!(state.is_finished());
            return outcome;
        }
        assert!(!state.is_finished());
        let reply = drive.serve(&action);
        assert!(state.expects(&reply));
        let next = state.step(reply);
        state = next.0;
        action = next.1;
    }
}

/// `F1` with the empty folder `G1` and the file `doc.txt`, and the empty folder `D1`.
fn small_drive() -> Drive {
    let mut drive = Drive::new();
    drive.folder("F1", "source", "root");
    drive.folder("D1", "destination", "root");
    drive.folder("G1", "G1", "F1");
    drive.file("X1", "doc.txt", "F1", "hello");
    drive
}

/// A source three levels deep.
fn deep_drive() -> Drive {
    let mut drive = Drive::new();
    drive.folder("F", "source", "root");
    drive.folder("D", "destination", "root");
    drive.file("a", "a.txt", "F", "A");
    drive.folder("G", "G", "F");
    drive.file("g1", "g1.txt", "G", "G1");
    drive.folder("H", "H", "G");
    drive.file("h1", "h1.txt", "H", "H1");
    drive.file("g2", "g2.txt", "G", "G2");
    drive.file("x", "x.txt", "F", "X");
    drive
}

#[test]
fn copies_a_folder_with_a_folder_and_a_file() {
    let mut drive = small_drive();
    let outcome = run(&mut drive, "F1", "D1");
    assert!(outcome.is_ok());
    assert_eq!(
        drive.shape("D1"),
        vec![
            ("G1".to_string(), true, String::new()),
            ("doc.txt".to_string(), false, "hello".to_string()),
        ]
    );
    let replica = drive.named("D1", "G1");
    assert_ne!(replica, "G1");
    assert!(drive.shape(&replica).is_empty());
    assert_ne!(drive.named("D1", "doc.txt"), "X1");
    assert_eq!(drive.objects.len(), 6);
}

#[test]
fn leaves_the_source_as_it_was() {
    let mut drive = small_drive();
    run(&mut drive, "F1", "D1").unwrap();
    assert_eq!(
        drive.shape("F1"),
        vec![
            ("G1".to_string(), true, String::new()),
            ("doc.txt".to_string(), false, "hello".to_string()),
        ]
    );
    assert!(drive.shape("G1").is_empty());
}

#[test]
fn asks_in_the_order_of_the_conversation() {
    let mut drive = small_drive();
    run(&mut drive, "F1", "D1").unwrap();
    assert_eq!(
        drive.log,
        vec![
            "session",
            "get F1",
            "get D1",
            "list F1",
            "mkdir G1 in D1",
            "list G1",
            "copy X1 to D1",
            "rename new-2 to doc.txt",
        ]
    );
}

#[test]
fn first_request_is_for_the_session() {
    let config = Config { src_folder_id: "F1".to_string(), to_folder_id: "D1".to_string() };
    let (state, action) = copy_folder::<String>(config);
    assert!(matches!(action, Action::OpenSession));
    assert!(!state.is_finished());
    assert!(state.expects(&Reply::Session(Ok(()))));
}

#[test]
fn mirrors_a_deep_tree() {
    let mut drive = deep_drive();
    let outcome = run(&mut drive, "F", "D");
    assert!(outcome.is_ok());
    assert_eq!(
        drive.shape("D"),
        vec![
            ("a.txt".to_string(), false, "A".to_string()),
            ("G".to_string(), true, String::new()),
            ("x.txt".to_string(), false, "X".to_string()),
        ]
    );
    let g = drive.named("D", "G");
    assert_eq!(
        drive.shape(&g),
        vec![
            ("g1.txt".to_string(), false, "G1".to_string()),
            ("H".to_string(), true, String::new()),
            ("g2.txt".to_string(), false, "G2".to_string()),
        ]
    );
    let h = drive.named(&g, "H");
    assert_eq!(drive.shape(&h), vec![("h1.txt".to_string(), false, "H1".to_string())]);
    assert_eq!(drive.objects.len(), 9 + 7);
}

#[test]
fn keeps_the_name_of_a_file_whatever_the_copy_is_called() {
    let mut drive = small_drive();
    run(&mut drive, "F1", "D1").unwrap();
    assert!(drive.log.contains(&"copy X1 to D1".to_string()));
    let names: Vec<String> = drive.objects.iter().map(|object| object.name.clone()).collect();
    assert!(!names.contains(&"Copy of doc.txt".to_string()));
    assert_eq!(drive.find(&drive.named("D1", "doc.txt")).unwrap().content, "hello");
}

#[test]
fn finishes_a_folder_before_the_child_after_it() {
    let mut drive = deep_drive();
    run(&mut drive, "F", "D").unwrap();
    assert_eq!(
        drive.mutations(),
        vec![
            "copy a to D",
            "rename new-1 to a.txt",
            "mkdir G in D",
            "copy g1 to new-2",
            "rename new-3 to g1.txt",
            "mkdir H in new-2",
            "copy h1 to new-4",
            "rename new-5 to h1.txt",
            "copy g2 to new-2",
            "rename new-6 to g2.txt",
            "copy x to D",
            "rename new-7 to x.txt",
        ]
    );
}

#[test]
fn does_not_put_folders_before_files() {
    let mut drive = Drive::new();
    drive.folder("F", "source", "root");
    drive.folder("D", "destination", "root");
    drive.file("x", "x.txt", "F", "X");
    drive.folder("G", "G", "F");
    run(&mut drive, "F", "D").unwrap();
    assert_eq!(
        drive.mutations(),
        vec!["copy x to D", "rename new-1 to x.txt", "mkdir G in D"]
    );
}

#[test]
fn source_that_is_no_folder_fails_before_any_change() {
    let mut drive = small_drive();
    let outcome = run(&mut drive, "X1", "D1");
    assert!(matches!(outcome, Err(Error::SourceNotADirectory)));
    assert!(drive.mutations().is_empty());
    assert_eq!(drive.log, vec!["session", "get X1"]);
    assert_eq!(drive.objects.len(), 4);
}

#[test]
fn destination_that_is_no_folder_fails_before_any_change() {
    let mut drive = small_drive();
    let outcome = run(&mut drive, "F1", "X1");
    assert!(matches!(outcome, Err(Error::DestinationNotADirectory)));
    assert!(drive.mutations().is_empty());
    assert_eq!(drive.log, vec!["session", "get F1", "get X1"]);
    assert_eq!(drive.objects.len(), 4);
}

#[test]
fn session_that_does_not_open_ends_the_copy() {
    let mut drive = small_drive();
    drive.fails = Some("session".to_string());
    let outcome = run(&mut drive, "F1", "D1");
    assert!(matches!(outcome, Err(Error::Hub(cause)) if cause == "session failed"));
    assert_eq!(drive.log, vec!["session"]);
}

#[test]
fn source_that_cannot_be_fetched_ends_the_copy() {
    let mut drive = small_drive();
    let outcome = run(&mut drive, "nowhere", "D1");
    assert!(matches!(outcome, Err(Error::GetFile(cause)) if cause == "get nowhere failed"));
    assert_eq!(drive.log, vec!["session", "get nowhere"]);
}

#[test]
fn destination_that_cannot_be_fetched_ends_the_copy() {
    let mut drive = small_drive();
    let outcome = run(&mut drive, "F1", "nowhere");
    assert!(matches!(
        outcome,
        Err(Error::GetDestinationFolder(cause)) if cause == "get nowhere failed"
    ));
    assert!(drive.mutations().is_empty());
}

#[test]
fn listing_that_fails_ends_the_copy() {
    let mut drive = small_drive();
    drive.fails = Some("list F1".to_string());
    let outcome = run(&mut drive, "F1", "D1");
    assert!(matches!(outcome, Err(Error::ListFiles(cause)) if cause == "list F1 failed"));
    assert!(drive.mutations().is_empty());
}

#[test]
fn listing_of_an_inner_folder_that_fails_ends_the_copy() {
    let mut drive = deep_drive();
    drive.fails = Some("list H".to_string());
    let outcome = run(&mut drive, "F", "D");
    assert!(matches!(outcome, Err(Error::ListFiles(cause)) if cause == "list H failed"));
    assert_eq!(drive.mutations().last().unwrap(), "mkdir H in new-2");
}

#[test]
fn directory_that_cannot_be_created_ends_the_copy() {
    let mut drive = deep_drive();
    drive.fails = Some("mkdir G in D".to_string());
    let outcome = run(&mut drive, "F", "D");
    assert!(matches!(outcome, Err(Error::MKDirError(cause)) if cause == "mkdir G in D failed"));
    assert_eq!(drive.shape("D"), vec![("a.txt".to_string(), false, "A".to_string())]);
    assert_eq!(drive.log.last().unwrap(), "mkdir G in D");
}

#[test]
fn file_that_cannot_be_copied_ends_the_copy() {
    let mut drive = deep_drive();
    drive.fails = Some("copy h1 to new-4".to_string());
    let outcome = run(&mut drive, "F", "D");
    assert!(matches!(outcome, Err(Error::Copy(cause)) if cause == "copy h1 to new-4 failed"));
    assert_eq!(drive.log.last().unwrap(), "copy h1 to new-4");
}

#[test]
fn copy_that_cannot_be_renamed_ends_the_copy() {
    let mut drive = small_drive();
    drive.fails = Some("rename new-2 to doc.txt".to_string());
    let outcome = run(&mut drive, "F1", "D1");
    assert!(matches!(
        outcome,
        Err(Error::RenameError(cause)) if cause == "rename new-2 to doc.txt failed"
    ));
    assert_eq!(
        drive.shape("D1"),
        vec![
            ("G1".to_string(), true, String::new()),
            ("Copy of doc.txt".to_string(), false, "hello".to_string()),
        ]
    );
}

#[test]
fn failure_leaves_what_was_created_before_it() {
    let mut drive = deep_drive();
    drive.fails = Some("copy g2 to new-2".to_string());
    let outcome = run(&mut drive, "F", "D");
    assert!(matches!(outcome, Err(Error::Copy(_))));
    let g = drive.named("D", "G");
    assert_eq!(
        drive.shape("D"),
        vec![("a.txt".to_string(), false, "A".to_string()), ("G".to_string(), true, String::new())]
    );
    assert_eq!(
        drive.shape(&g),
        vec![("g1.txt".to_string(), false, "G1".to_string()), ("H".to_string(), true, String::new())]
    );
    assert_eq!(drive.shape(&drive.named(&g, "H")), vec![("h1.txt".to_string(), false, "H1".to_string())]);
}

#[test]
fn child_without_id_ends_the_copy_at_once() {
    let mut drive = deep_drive();
    drive.objects.iter_mut().find(|object| object.id == "G").unwrap().hide_id = true;
    let outcome = run(&mut drive, "F", "D");
    assert!(matches!(outcome, Err(Error::FileWithoutId)));
    assert_eq!(drive.mutations(), vec!["copy a to D", "rename new-1 to a.txt"]);
    assert_eq!(drive.shape("D"), vec![("a.txt".to_string(), false, "A".to_string())]);
    assert_eq!(drive.log.last().unwrap(), "rename new-1 to a.txt");
}

#[test]
fn child_without_name_ends_the_copy_at_once() {
    let mut drive = deep_drive();
    drive.objects.iter_mut().find(|object| object.id == "x").unwrap().hide_name = true;
    let outcome = run(&mut drive, "F", "D");
    assert!(matches!(outcome, Err(Error::FileWithoutName)));
    assert_eq!(drive.mutations().len(), 10);
    assert_eq!(drive.mutations().last().unwrap(), "rename new-6 to g2.txt");
    assert_eq!(drive.shape("D").len(), 2);
}

#[test]
fn folder_without_name_gives_the_error_of_the_name() {
    let mut drive = small_drive();
    drive.objects.iter_mut().find(|object| object.id == "G1").unwrap().hide_name = true;
    let outcome = run(&mut drive, "F1", "D1");
    assert!(matches!(outcome, Err(Error::FileWithoutName)));
    assert!(drive.mutations().is_empty());
}

#[test]
fn child_without_id_and_name_gives_the_error_of_the_id() {
    let mut drive = small_drive();
    let child = drive.objects.iter_mut().find(|object| object.id == "X1").unwrap();
    child.hide_id = true;
    child.hide_name = true;
    let outcome = run(&mut drive, "F1", "D1");
    assert!(matches!(outcome, Err(Error::FileWithoutId)));
    assert_eq!(drive.mutations(), vec!["mkdir G1 in D1"]);
}

#[test]
fn new_directory_without_id_ends_the_copy() {
    let mut drive = small_drive();
    drive.forgets_ids = true;
    let outcome = run(&mut drive, "F1", "D1");
    assert!(matches!(outcome, Err(Error::FileWithoutId)));
    assert_eq!(drive.mutations(), vec!["mkdir G1 in D1"]);
}

#[test]
fn new_file_without_id_ends_the_copy() {
    let mut drive = Drive::new();
    drive.folder("F", "source", "root");
    drive.folder("D", "destination", "root");
    drive.file("x", "x.txt", "F", "X");
    drive.forgets_ids = true;
    let outcome = run(&mut drive, "F", "D");
    assert!(matches!(outcome, Err(Error::FileWithoutId)));
    assert_eq!(drive.mutations(), vec!["copy x to D"]);
}

#[test]
fn copies_into_an_empty_source_nothing() {
    let mut drive = Drive::new();
    drive.folder("F", "source", "root");
    drive.folder("D", "destination", "root");
    let outcome = run(&mut drive, "F", "D");
    assert!(outcome.is_ok());
    assert!(drive.mutations().is_empty());
    assert_eq!(drive.log, vec!["session", "get F", "get D", "list F"]);
}

#[test]
fn adds_to_what_the_destination_holds() {
    let mut drive = small_drive();
    drive.file("old", "old.txt", "D1", "kept");
    run(&mut drive, "F1", "D1").unwrap();
    assert_eq!(
        drive.shape("D1"),
        vec![
            ("old.txt".to_string(), false, "kept".to_string()),
            ("G1".to_string(), true, String::new()),
            ("doc.txt".to_string(), false, "hello".to_string()),
        ]
    );
}

/// Drives a copy up to the listing of the source and answers it with `count` files.
fn after_listing(count: usize) -> Action<String> {
    let folder = FileHandle {
        id: Some("F".to_string()),
        name: Some("source".to_string()),
        mime_type: Some(MIME_TYPE_DRIVE_FOLDER.to_string()),
    };
    let config = Config { src_folder_id: "F".to_string(), to_folder_id: "D".to_string() };
    let (state, _) = copy_folder::<String>(config);
    let (state, _) = state.step(Reply::Session(Ok(())));
    let (state, _) = state.step(Reply::File(Ok(folder.clone())));
    let (state, action) = state.step(Reply::File(Ok(folder)));
    assert!(matches!(
        action,
        Action::ListFiles { ref folder_id, order_by: ListSortOrder::FolderModifiedName, max_files: 1000 }
            if folder_id == "F"
    ));
    let children: Vec<FileHandle> = (0..count)
        .map(|number| FileHandle {
            id: Some(format!("f{}", number)),
            name: Some(format!("{}.txt", number)),
            mime_type: None,
        })
        .collect();
    let (mut state, mut action) = state.step(Reply::Files(Ok(children)));
    let mut copied = 0;
    loop {
        match action {
            Action::CopyFile { ref file_id, ref to_folder_id } => {
                assert_eq!(*file_id, format!("f{}", copied));
                assert_eq!(to_folder_id, "D");
                let made = FileHandle { id: Some(format!("c{}", copied)), name: None, mime_type: None };
                let next = state.step(Reply::File(Ok(made)));
                state = next.0;
                action = next.1;
            },
            Action::Rename { ref file_id, ref name } => {
                assert_eq!(*file_id, format!("c{}", copied));
                assert_eq!(*name, format!("{}.txt", copied));
                copied += 1;
                let next = state.step(Reply::Renamed(Ok(())));
                state = next.0;
                action = next.1;
            },
            other => {
                assert_eq!(copied, count.min(MAX_FILES));
                return other;
            },
        }
    }
}

#[test]
fn replicates_a_full_listing() {
    assert_eq!(MAX_FILES, 1000);
    assert!(matches!(after_listing(1000), Action::Finish(Ok(()))));
}

#[test]
fn replicates_only_the_first_thousand_of_a_longer_listing() {
    assert!(matches!(after_listing(1001), Action::Finish(Ok(()))));
    assert!(matches!(after_listing(2500), Action::Finish(Ok(()))));
}

#[test]
fn replicates_a_short_listing_whole() {
    assert!(matches!(after_listing(0), Action::Finish(Ok(()))));
    assert!(matches!(after_listing(3), Action::Finish(Ok(()))));
}

#[test]
fn caps_the_listing_of_a_large_folder_in_the_store() {
    let mut drive = Drive::new();
    drive.folder("F", "source", "root");
    drive.folder("D", "destination", "root");
    for number in 0..1003 {
        drive.file(&format!("f{}", number), &format!("{}.txt", number), "F", "");
    }
    let outcome = run(&mut drive, "F", "D");
    assert!(outcome.is_ok());
    let replicas = drive.shape("D");
    assert_eq!(replicas.len(), 1000);
    assert_eq!(replicas[0].0, "0.txt");
    assert_eq!(replicas[999].0, "999.txt");
}

#[test]
fn expects_only_the_answer_to_its_request() {
    let config = Config { src_folder_id: "F".to_string(), to_folder_id: "D".to_string() };
    let (state, _) = copy_folder::<String>(config);
    assert!(state.expects(&Reply::Session(Err("no".to_string()))));
    assert!(!state.expects(&Reply::Renamed(Ok(()))));
    assert!(!state.expects(&Reply::Files(Ok(Vec::new()))));
    assert!(!state.expects(&Reply::File(Err("no".to_string()))));
    let (state, _) = state.step(Reply::Session(Ok(())));
    assert!(state.expects(&Reply::File(Err("no".to_string()))));
    assert!(!state.expects(&Reply::Session(Ok(()))));
    let (state, action) = state.step(Reply::File(Err("no".to_string())));
    assert!(matches!(action, Action::Finish(Err(Error::GetFile(_)))));
    assert!(state.is_finished());
    assert!(!state.expects(&Reply::Session(Ok(()))));
    assert!(!state.expects(&Reply::File(Err("no".to_string()))));
    assert!(!state.expects(&Reply::Files(Ok(Vec::new()))));
    assert!(!state.expects(&Reply::Renamed(Ok(()))));
}

#[test]
fn tells_a_folder_by_its_mime_type() {
    let mut handle = FileHandle {
        id: Some("a".to_string()),
        name: Some("a".to_string()),
        mime_type: Some("application/vnd.google-apps.folder".to_string()),
    };
    assert!(is_directory(&handle));
    handle.mime_type = Some("application/vnd.google-apps.document".to_string());
    assert!(!is_directory(&handle));
    handle.mime_type = Some(String::new());
    assert!(!is_directory(&handle));
    handle.mime_type = None;
    assert!(!is_directory(&handle));
    let nameless = FileHandle {
        id: None,
        name: None,
        mime_type: Some(MIME_TYPE_DRIVE_FOLDER.to_string()),
    };
    assert!(is_directory(&nameless));
}

#[test]
fn enters_a_level_by_asking_for_its_listing() {
    let config = Config { src_folder_id: "F".to_string(), to_folder_id: "D".to_string() };
    let (state, _) = copy_folder::<String>(config);
    let level = CopyFolderConfig { src_folder_id: "S".to_string(), to_folder_id: "T".to_string() };
    let (state, action) = copy_folder_inner(state, level);
    assert!(matches!(
        action,
        Action::ListFiles { ref folder_id, order_by: ListSortOrder::FolderModifiedName, max_files }
            if folder_id == "S" && max_files == MAX_FILES
    ));
    assert!(state.expects(&Reply::Files(Ok(Vec::new()))));
    assert!(!state.expects(&Reply::Session(Ok(()))));
    let child = FileHandle {
        id: Some("x".to_string()),
        name: Some("x.txt".to_string()),
        mime_type: Some("text/plain".to_string()),
    };
    let (state, action) = state.step(Reply::Files(Ok(vec![child])));
    assert!(matches!(
        action,
        Action::CopyFile { ref file_id, ref to_folder_id } if file_id == "x" && to_folder_id == "T"
    ));
    let made = FileHandle { id: Some("y".to_string()), name: None, mime_type: None };
    let (state, action) = state.step(Reply::File(Ok(made)));
    assert!(matches!(
        action,
        Action::Rename { ref file_id, ref name } if file_id == "y" && name == "x.txt"
    ));
    let (state, action) = state.step(Reply::Renamed(Ok(())));
    assert!(matches!(action, Action::Finish(Ok(()))));
    assert!(state.is_finished());
}

#[test]
fn descends_into_the_directory_that_was_created() {
    let config = Config { src_folder_id: "F".to_string(), to_folder_id: "D".to_string() };
    let (state, _) = copy_folder::<String>(config);
    let level = CopyFolderConfig { src_folder_id: "F".to_string(), to_folder_id: "D".to_string() };
    let (state, _) = copy_folder_inner(state, level);
    let folder = FileHandle {
        id: Some("G".to_string()),
        name: Some("inner".to_string()),
        mime_type: Some(MIME_TYPE_DRIVE_FOLDER.to_string()),
    };
    let (state, action) = state.step(Reply::Files(Ok(vec![folder])));
    assert!(matches!(
        action,
        Action::CreateDirectory { ref name, ref parent_id } if name == "inner" && parent_id == "D"
    ));
    let made = FileHandle {
        id: Some("G2".to_string()),
        name: Some("inner".to_string()),
        mime_type: Some(MIME_TYPE_DRIVE_FOLDER.to_string()),
    };
    let (state, action) = state.step(Reply::File(Ok(made)));
    assert!(matches!(action, Action::ListFiles { ref folder_id, .. } if folder_id == "G"));
    let file = FileHandle { id: Some("x".to_string()), name: Some("x".to_string()), mime_type: None };
    let (_, action) = state.step(Reply::Files(Ok(vec![file])));
    assert!(matches!(
        action,
        Action::CopyFile { ref file_id, ref to_folder_id } if file_id == "x" && to_folder_id == "G2"
    ));
}
