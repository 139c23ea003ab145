use jamstream_client::file_manager::{
    after_first, after_folder, run, select_argument, show, Desktop, Launch, Next, Ran, LABELS,
};

#[test]
fn the_button_is_named_the_way_this_platform_names_it() {
    for desktop in [Desktop::MacOs, Desktop::Windows, Desktop::Other] {
        assert!(LABELS.contains(&desktop.label()), "{desktop:?}");
    }
    assert!(LABELS.iter().all(|word| !word.is_empty()));
    let mut distinct = LABELS.to_vec();
    distinct.sort_unstable();
    distinct.dedup();
    assert_eq!(distinct.len(), LABELS.len(), "{LABELS:?}");
    assert_eq!(Desktop::MacOs.label(), LABELS[0]);
    assert_eq!(Desktop::Windows.label(), LABELS[1]);
    assert_eq!(Desktop::Other.label(), LABELS[2]);
}

#[test]
fn the_explorer_select_switch_takes_the_path_with_no_space_between() {
    let arg = select_argument("takes/jamstream-mix.flac");
    assert!(arg.starts_with("/select,"), "{arg}");
    assert!(!arg.contains("/select, "), "{arg}");
    assert_eq!(
        arg.strip_prefix("/select,"),
        Some("takes/jamstream-mix.flac")
    );
}

#[test]
fn a_path_that_is_not_there_is_refused_before_the_platform_sees_it() {
    let missing = "/tmp/jamstream-nothing-here-at-all.flac";
    for desktop in [Desktop::MacOs, Desktop::Windows, Desktop::Other] {
        let err = show(missing, false, desktop).expect_err("a missing take cannot be revealed");
        assert!(err.contains("not there any more"), "{err}");
        assert!(err.starts_with(missing), "{err}");
    }
}

#[test]
fn each_desktop_is_asked_in_its_own_words() {
    let path = "/takes/mix.flac";
    assert_eq!(
        show(path, true, Desktop::MacOs),
        Ok(Launch {
            program: "open",
            args: vec!["-R".to_owned(), path.to_owned()],
            waited: true,
        })
    );
    assert_eq!(
        show(path, true, Desktop::Windows),
        Ok(Launch {
            program: "explorer",
            args: vec!["/select,/takes/mix.flac".to_owned()],
            waited: false,
        })
    );
    let launch = show(path, true, Desktop::Other).expect("the bus is asked first");
    assert_eq!(launch.program, "gdbus");
    assert_eq!(
        launch.args,
        [
            "call",
            "--session",
            "--dest",
            "org.freedesktop.FileManager1",
            "--object-path",
            "/org/freedesktop/FileManager1",
            "--method",
            "org.freedesktop.FileManager1.ShowItems",
            "['file:///takes/mix.flac']",
            "",
        ]
    );
}

#[test]
fn a_file_manager_that_refuses_says_why() {
    assert_eq!(run("open", Ran::Succeeded), Ok(()));
    assert_eq!(
        run("open", Ran::NotStarted("no such file".to_owned())),
        Err("open could not be started: no such file".to_owned())
    );
    assert_eq!(
        run("open", Ran::Failed("  \n".to_owned())),
        Err("open failed".to_owned())
    );
    assert_eq!(
        run("open", Ran::Failed(" it is locked\n".to_owned())),
        Err("open: it is locked".to_owned())
    );
}

#[test]
fn explorer_is_judged_only_on_starting() {
    assert_eq!(
        after_first(Desktop::Windows, "/takes", Ran::Failed("exit 1".to_owned())),
        Next::Done(Ok(()))
    );
    assert_eq!(
        after_first(Desktop::Windows, "/takes", Ran::NotStarted("gone".to_owned())),
        Next::Done(Err("explorer could not be started: gone".to_owned()))
    );
    assert_eq!(
        after_first(Desktop::MacOs, "/takes", Ran::Failed(String::new())),
        Next::Done(Err("open failed".to_owned()))
    );
}

#[test]
fn a_bus_nobody_answers_on_opens_the_folder() {
    assert_eq!(
        after_first(Desktop::Other, "/takes", Ran::Succeeded),
        Next::Done(Ok(()))
    );
    let next = after_first(Desktop::Other, "/takes", Ran::Failed("no name".to_owned()));
    assert_eq!(
        next,
        Next::OpenFolder(Launch {
            program: "xdg-open",
            args: vec!["/takes".to_owned()],
            waited: true,
        })
    );
    assert_eq!(after_folder(Ran::Succeeded), Ok(()));
    assert_eq!(
        after_folder(Ran::Failed("nothing opens folders".to_owned())),
        Err("xdg-open: nothing opens folders. No file manager answered on the session bus \
             either, so the folder could not be opened"
            .to_owned())
    );
}
