use blog_backend::reply::{Body, Notice, Reply, Status};
use blog_backend::paths::check_confined;
use blog_backend::sanitize::sanitize;
use blog_backend::upload::{
    answer, StreamStep, UploadAction, UploadConfig, UploadEvent, UploadState,
};

fn part(filename: &str) -> UploadEvent {
    UploadEvent::Part { filename: Some(filename.to_string()) }
}

fn streaming(name: &str, step: StreamStep) -> UploadState {
    UploadState::Streaming { name: name.to_string(), step }
}

fn all_events() -> Vec<UploadEvent> {
    vec![
        UploadEvent::Started,
        part("a.png"),
        UploadEvent::Part { filename: None },
        UploadEvent::PartMalformed,
        UploadEvent::NoPart,
        UploadEvent::Opened,
        UploadEvent::DirectoryNotCreated,
        UploadEvent::FileNotCreated,
        UploadEvent::Chunk,
        UploadEvent::ChunkNotRead,
        UploadEvent::EndOfPart,
        UploadEvent::Written,
        UploadEvent::NotWritten,
    ]
}

fn has_no_separator_or_dot_name(name: &str) -> bool {
    !name.contains('/') && !name.contains('\\') && name != "." && name != ".."
}

#[test]
fn sanitize_removes_separators() {
    assert_eq!(sanitize("a/b\\c", false), "abc");
    assert_eq!(sanitize("/etc/passwd", false), "etcpasswd");
    assert_eq!(sanitize("relative/path/to/some/dir", false), "relativepathtosomedir");
    assert_eq!(sanitize("../../etc/passed", false), "....etcpassed");
    assert_eq!(sanitize("C:\\Windows\\system32", false), "CWindowssystem32");
    assert_eq!(sanitize("../../secret.png", true), "....secret.png");
}

#[test]
fn sanitize_removes_illegal_and_control_characters() {
    assert_eq!(sanitize("x?<>:*|\"y", false), "xy");
    assert_eq!(sanitize("hello\u{0}world\n", false), "helloworld");
    assert_eq!(sanitize("a\u{1f}b\u{80}c\u{9f}d", false), "abcd");
    assert_eq!(sanitize("plus+.js", false), "plus+.js");
    assert_eq!(sanitize("résumé", false), "résumé");
}

#[test]
fn sanitize_empties_names_of_dots_and_separators() {
    for name in ["", ".", "..", "...", "/", "////", "./", "../", "/..", "/../", "\\..\\", "*.|."] {
        assert_eq!(sanitize(name, false), "", "for {:?}", name);
        assert_eq!(sanitize(name, true), "", "for {:?}", name);
    }
}

#[test]
fn sanitize_keeps_a_plain_name() {
    assert_eq!(sanitize("photo.png", false), "photo.png");
    assert_eq!(sanitize("photo.png", true), "photo.png");
    assert_eq!(sanitize(".period", false), ".period");
    assert_eq!(sanitize(" space at front", true), " space at front");
}

#[test]
fn sanitize_follows_the_rules_for_windows_on_demand() {
    assert_eq!(sanitize("con", false), "con");
    assert_eq!(sanitize("con", true), "");
    assert_eq!(sanitize("LPT9.asdf", false), "LPT9.asdf");
    assert_eq!(sanitize("LPT9.asdf", true), "");
    assert_eq!(sanitize("foobar...", false), "foobar...");
    assert_eq!(sanitize("foobar...", true), "foobar");
    assert_eq!(sanitize("space at end ", false), "space at end ");
    assert_eq!(sanitize("space at end ", true), "space at end");
}

#[test]
fn sanitize_cuts_at_255_bytes() {
    let long = "a".repeat(300);
    assert_eq!(sanitize(&long, false), "a".repeat(255));
    let exact = "b".repeat(255);
    assert_eq!(sanitize(&exact, false), exact);
    let accents = "é".repeat(200);
    assert_eq!(sanitize(&accents, false), "é".repeat(127));
    let dots = format!("{}a", ".".repeat(255));
    let cut = sanitize(&dots, false);
    assert_eq!(cut, ".".repeat(255));
    assert!(has_no_separator_or_dot_name(&cut));
}

#[test]
fn sanitized_names_are_single_segments() {
    let names = [
        "../../etc/passed",
        "/etc/passwd",
        "C:\\Windows\\system32",
        "a/../b",
        "..",
        ".",
        "",
        "////",
        "..\\..\\x",
        "./",
        "../",
        "/..",
        "\u{0}/\u{1f}",
        "./././foobar",
        "~/.\u{0}notssh/authorized_keys",
        "..\u{0}",
        ".\n.",
        "/.\\.",
    ];
    for name in names {
        for windows in [false, true] {
            let clean = sanitize(name, windows);
            assert!(has_no_separator_or_dot_name(&clean), "{:?} gave {:?}", name, clean);
            assert_eq!(check_confined(&clean), !clean.is_empty());
            assert!(clean.chars().all(|c| !"/?<>\\:*|\"".contains(c)));
            assert!(clean.chars().all(|c| (c as u32) > 0x1f && !(0x80..=0x9f).contains(&(c as u32))));
        }
    }
}

#[test]
fn local_configuration() {
    let config = UploadConfig::local(false);
    assert_eq!(config.directory, "./uploads");
    assert_eq!(config.base_url, "http://127.0.0.1:8080/uploads");
    assert!(!config.windows);
    assert!(UploadConfig::local(true).windows);
    assert_eq!(config.path_of("a.png"), "./uploads/a.png");
    assert_eq!(config.url_of("a.png"), "http://127.0.0.1:8080/uploads/a.png");
}

#[test]
fn configuration_joins_with_one_separator() {
    let config = UploadConfig::new("/srv/files".to_string(), "https://example.org/f".to_string(), true);
    assert_eq!(
        config,
        UploadConfig {
            directory: "/srv/files".to_string(),
            base_url: "https://example.org/f".to_string(),
            windows: true,
        }
    );
    assert_eq!(config.path_of("x"), "/srv/files/x");
    assert_eq!(config.url_of("x"), "https://example.org/f/x");
}

#[test]
fn check_confined_tells_entries_of_a_directory() {
    for name in ["a", "photo.png", "....secret.png", "...", ".a", "a.", " ", "con", "a b"] {
        assert!(check_confined(name), "{:?}", name);
    }
    for name in ["", ".", "..", "/", "\\", "a/b", "a\\b", "/a", "a/", "../x", "..\\x", "./"] {
        assert!(!check_confined(name), "{:?}", name);
    }
    assert!(check_confined(&".".repeat(255)));
    assert!(check_confined("é"));
}

#[test]
fn names_of_which_nothing_is_left_are_rejected_and_nothing_is_opened() {
    for windows in [false, true] {
        let config = UploadConfig::local(windows);
        for declared in ["", ".", "..", "/", "///", "...", "./", "../", "\\", "\u{0}", "?*"] {
            let (state, action) = config.step(UploadState::ReceivingPart, part(declared));
            assert_eq!(
                state,
                UploadState::Rejected { notice: Notice::FilenameMissing },
                "for {:?}",
                declared
            );
            assert_eq!(action, UploadAction::Respond);
            let reply = answer(state).unwrap();
            assert_eq!(reply.status, Status::BadRequest);
            assert_eq!(reply.body, Body::Notice(Notice::FilenameMissing));
        }
    }
    let config = UploadConfig::local(true);
    for declared in ["con", "LPT9.asdf", ". .", " "] {
        let (state, action) = config.step(UploadState::ReceivingPart, part(declared));
        assert_eq!(state, UploadState::Rejected { notice: Notice::FilenameMissing });
        assert_eq!(action, UploadAction::Respond);
    }
}

#[test]
fn no_declared_name_opens_the_upload_directory_or_leaves_it() {
    let declared = [
        "", ".", "..", "/", "///", "a", "a/b", "../../etc/passed", "/etc/passwd", "..\\..\\x",
        "C:\\Windows\\system32", "./x", "x/.", "x/..", "\u{0}/\u{1f}", "photo.png",
    ];
    for windows in [false, true] {
        let config = UploadConfig::local(windows);
        for name in declared {
            let (state, action) = config.step(UploadState::ReceivingPart, part(name));
            match (state, action) {
                (
                    UploadState::Streaming { name: stored, step: StreamStep::Opening },
                    UploadAction::Open { directory, path },
                ) => {
                    assert_eq!(directory, "./uploads");
                    assert!(!stored.is_empty());
                    assert!(has_no_separator_or_dot_name(&stored));
                    assert_eq!(path, format!("./uploads/{}", stored));
                    assert_ne!(path, "./uploads/");
                }
                (UploadState::Rejected { notice }, UploadAction::Respond) => {
                    assert_eq!(notice, Notice::FilenameMissing);
                    assert_eq!(sanitize(name, windows), "");
                }
                other => panic!("unexpected {:?} for {:?}", other, name),
            }
        }
    }
}

#[test]
fn upload_of_a_traversing_name_stays_in_the_upload_directory() {
    let config = UploadConfig::local(false);
    let (state, action) = config.step(UploadState::ReceivingPart, part("../../secret.png"));
    let name = match &state {
        UploadState::Streaming { name, step: StreamStep::Opening } => name.clone(),
        other => panic!("unexpected state {:?}", other),
    };
    assert_eq!(name, "....secret.png");
    assert!(!name.contains('/'));
    assert!(name.split('/').all(|segment| segment != ".."));
    assert_eq!(
        action,
        UploadAction::Open {
            directory: "./uploads".to_string(),
            path: "./uploads/....secret.png".to_string(),
        }
    );
    let (state, _) = config.step(state, UploadEvent::Opened);
    let (state, _) = config.step(state, UploadEvent::Chunk);
    let (state, _) = config.step(state, UploadEvent::Written);
    let (state, action) = config.step(state, UploadEvent::EndOfPart);
    assert_eq!(action, UploadAction::Respond);
    assert_eq!(
        state,
        UploadState::Committed {
            location: "http://127.0.0.1:8080/uploads/....secret.png".to_string()
        }
    );
    let reply = answer(state).unwrap();
    assert_eq!(reply.status, Status::Success);
    match reply.body {
        Body::Location(location) => {
            let rest = location.strip_prefix("http://127.0.0.1:8080/uploads/").unwrap();
            assert!(!rest.contains('/'));
            assert_ne!(rest, "..");
        }
        other => panic!("unexpected body {:?}", other),
    }
}

#[test]
fn accept_filename_opens_the_destination() {
    let config = UploadConfig::local(false);
    let (state, action) = config.accept_filename("photo.png".to_string());
    assert_eq!(state, streaming("photo.png", StreamStep::Opening));
    assert_eq!(
        action,
        UploadAction::Open {
            directory: "./uploads".to_string(),
            path: "./uploads/photo.png".to_string(),
        }
    );
}

#[test]
fn accept_filename_rejects_what_is_not_confined() {
    let config = UploadConfig::local(false);
    for name in ["", ".", "..", "a/b", "/", "..\\x", "../secret.png"] {
        let (state, action) = config.accept_filename(name.to_string());
        assert_eq!(state, UploadState::Rejected { notice: Notice::FilenameMissing });
        assert_eq!(action, UploadAction::Respond);
    }
}

#[test]
fn upload_runs_from_idle_to_committed() {
    let config = UploadConfig::local(false);
    let (state, action) = config.step(UploadState::Idle, UploadEvent::Started);
    assert_eq!((&state, &action), (&UploadState::ReceivingPart, &UploadAction::ReadPart));
    let (state, action) = config.step(state, part("dir/cat.png"));
    assert_eq!(state, streaming("dircat.png", StreamStep::Opening));
    assert_eq!(
        action,
        UploadAction::Open {
            directory: "./uploads".to_string(),
            path: "./uploads/dircat.png".to_string(),
        }
    );
    let (state, action) = config.step(state, UploadEvent::Opened);
    assert_eq!(state, streaming("dircat.png", StreamStep::Reading));
    assert_eq!(action, UploadAction::ReadChunk);
    let mut state = state;
    for _ in 0..3 {
        let (next, action) = config.step(state, UploadEvent::Chunk);
        assert_eq!(next, streaming("dircat.png", StreamStep::Writing));
        assert_eq!(action, UploadAction::WriteChunk);
        let (next, action) = config.step(next, UploadEvent::Written);
        assert_eq!(next, streaming("dircat.png", StreamStep::Reading));
        assert_eq!(action, UploadAction::ReadChunk);
        state = next;
    }
    let (state, action) = config.step(state, UploadEvent::EndOfPart);
    assert_eq!(action, UploadAction::Respond);
    assert_eq!(
        state,
        UploadState::Committed { location: "http://127.0.0.1:8080/uploads/dircat.png".to_string() }
    );
    assert_eq!(
        answer(state),
        Some(Reply {
            status: Status::Success,
            body: Body::Location("http://127.0.0.1:8080/uploads/dircat.png".to_string()),
        })
    );
}

#[test]
fn upload_of_an_empty_part_commits_an_empty_file() {
    let config = UploadConfig::local(false);
    let (state, _) = config.step(UploadState::ReceivingPart, part("empty.bin"));
    let (state, _) = config.step(state, UploadEvent::Opened);
    let (state, action) = config.step(state, UploadEvent::EndOfPart);
    assert_eq!(action, UploadAction::Respond);
    assert_eq!(
        state,
        UploadState::Committed { location: "http://127.0.0.1:8080/uploads/empty.bin".to_string() }
    );
}

#[test]
fn upload_sanitizes_by_the_configured_rules() {
    let plain = UploadConfig::local(false);
    let windows = UploadConfig::local(true);
    let (state, _) = plain.step(UploadState::ReceivingPart, part("report..."));
    assert_eq!(state, streaming("report...", StreamStep::Opening));
    let (state, action) = windows.step(UploadState::ReceivingPart, part("report..."));
    assert_eq!(state, streaming("report", StreamStep::Opening));
    assert_eq!(
        action,
        UploadAction::Open {
            directory: "./uploads".to_string(),
            path: "./uploads/report".to_string(),
        }
    );
}

#[test]
fn part_without_filename_is_rejected() {
    let config = UploadConfig::local(false);
    let (state, action) = config.step(UploadState::ReceivingPart, UploadEvent::Part { filename: None });
    assert_eq!(state, UploadState::Rejected { notice: Notice::FilenameMissing });
    assert_eq!(action, UploadAction::Respond);
    let reply = answer(state).unwrap();
    assert_eq!(reply.status, Status::BadRequest);
    assert_eq!(reply.body, Body::Notice(Notice::FilenameMissing));
    assert_eq!(Notice::FilenameMissing.text(), "Filename not found in Content-Disposition");
}

#[test]
fn malformed_part_is_rejected() {
    let config = UploadConfig::local(false);
    let (state, action) = config.step(UploadState::ReceivingPart, UploadEvent::PartMalformed);
    assert_eq!(state, UploadState::Rejected { notice: Notice::FieldMalformed });
    assert_eq!(action, UploadAction::Respond);
    assert_eq!(answer(state).unwrap().status.code(), 400);
}

#[test]
fn request_without_part_is_rejected() {
    let config = UploadConfig::local(false);
    let (state, action) = config.step(UploadState::ReceivingPart, UploadEvent::NoPart);
    assert_eq!(state, UploadState::Rejected { notice: Notice::NoFile });
    assert_eq!(action, UploadAction::Respond);
    assert_eq!(answer(state).unwrap().status.code(), 400);
}

#[test]
fn failures_while_opening() {
    let config = UploadConfig::local(false);
    let (state, action) =
        config.step(streaming("a", StreamStep::Opening), UploadEvent::DirectoryNotCreated);
    assert_eq!(state, UploadState::Failed { notice: Notice::DirectoryFailed });
    assert_eq!(action, UploadAction::Respond);
    assert_eq!(answer(state).unwrap().status.code(), 500);
    let (state, action) =
        config.step(streaming("a", StreamStep::Opening), UploadEvent::FileNotCreated);
    assert_eq!(state, UploadState::Failed { notice: Notice::FileFailed });
    assert_eq!(action, UploadAction::Respond);
    assert_eq!(answer(state).unwrap().status.code(), 500);
}

#[test]
fn failures_while_streaming() {
    let config = UploadConfig::local(false);
    let (state, action) =
        config.step(streaming("a", StreamStep::Reading), UploadEvent::ChunkNotRead);
    assert_eq!(state, UploadState::Failed { notice: Notice::ChunkFailed });
    assert_eq!(action, UploadAction::Respond);
    assert_eq!(
        answer(state),
        Some(Reply { status: Status::ServerError, body: Body::Notice(Notice::ChunkFailed) })
    );
    let (state, action) = config.step(streaming("a", StreamStep::Writing), UploadEvent::NotWritten);
    assert_eq!(state, UploadState::Failed { notice: Notice::WriteFailed });
    assert_eq!(action, UploadAction::Respond);
    assert_eq!(
        answer(state),
        Some(Reply { status: Status::ServerError, body: Body::Notice(Notice::WriteFailed) })
    );
}

#[test]
fn failure_after_some_chunks_answers_at_once() {
    let config = UploadConfig::local(false);
    let (state, _) = config.step(UploadState::ReceivingPart, part("big.bin"));
    let (state, _) = config.step(state, UploadEvent::Opened);
    let (state, _) = config.step(state, UploadEvent::Chunk);
    let (state, _) = config.step(state, UploadEvent::Written);
    let (state, _) = config.step(state, UploadEvent::Chunk);
    let (state, action) = config.step(state, UploadEvent::NotWritten);
    assert_eq!(action, UploadAction::Respond);
    assert_eq!(state, UploadState::Failed { notice: Notice::WriteFailed });
    let (state, action) = config.step(state, UploadEvent::Chunk);
    assert_eq!(action, UploadAction::Ignore);
    assert_eq!(state, UploadState::Failed { notice: Notice::WriteFailed });
}

#[test]
fn final_states_take_no_event() {
    let config = UploadConfig::local(false);
    for event in all_events() {
        let (state, action) =
            config.step(UploadState::Committed { location: "u".to_string() }, event);
        assert_eq!(state, UploadState::Committed { location: "u".to_string() });
        assert_eq!(action, UploadAction::Ignore);
    }
    for event in all_events() {
        let (state, action) = config.step(UploadState::Rejected { notice: Notice::NoFile }, event);
        assert_eq!(state, UploadState::Rejected { notice: Notice::NoFile });
        assert_eq!(action, UploadAction::Ignore);
    }
    for event in all_events() {
        let (state, action) = config.step(UploadState::Failed { notice: Notice::FileFailed }, event);
        assert_eq!(state, UploadState::Failed { notice: Notice::FileFailed });
        assert_eq!(action, UploadAction::Ignore);
    }
}

#[test]
fn later_parts_are_ignored() {
    let config = UploadConfig::local(false);
    for step in [StreamStep::Opening, StreamStep::Reading, StreamStep::Writing] {
        let (state, action) = config.step(streaming("first.png", step), part("second.png"));
        assert_eq!(state, streaming("first.png", step));
        assert_eq!(action, UploadAction::Ignore);
        let (state, action) =
            config.step(streaming("first.png", step), UploadEvent::Part { filename: None });
        assert_eq!(state, streaming("first.png", step));
        assert_eq!(action, UploadAction::Ignore);
    }
    let (state, action) = config.step(UploadState::Idle, part("early.png"));
    assert_eq!(state, UploadState::Idle);
    assert_eq!(action, UploadAction::Ignore);
}

#[test]
fn unexpected_events_change_nothing() {
    let config = UploadConfig::local(false);
    let expected_in_idle = [UploadEvent::Started];
    for event in all_events() {
        if expected_in_idle.contains(&event) {
            continue;
        }
        let (state, action) = config.step(UploadState::Idle, event);
        assert_eq!(state, UploadState::Idle);
        assert_eq!(action, UploadAction::Ignore);
    }
    for event in [
        UploadEvent::Started,
        UploadEvent::Opened,
        UploadEvent::Chunk,
        UploadEvent::EndOfPart,
        UploadEvent::Written,
        UploadEvent::NotWritten,
        UploadEvent::ChunkNotRead,
        UploadEvent::DirectoryNotCreated,
        UploadEvent::FileNotCreated,
    ] {
        let (state, action) = config.step(UploadState::ReceivingPart, event);
        assert_eq!(state, UploadState::ReceivingPart);
        assert_eq!(action, UploadAction::Ignore);
    }
    for event in [UploadEvent::Chunk, UploadEvent::EndOfPart, UploadEvent::Written] {
        let (state, action) = config.step(streaming("a", StreamStep::Opening), event);
        assert_eq!(state, streaming("a", StreamStep::Opening));
        assert_eq!(action, UploadAction::Ignore);
    }
    for event in [UploadEvent::Opened, UploadEvent::Written, UploadEvent::NotWritten] {
        let (state, action) = config.step(streaming("a", StreamStep::Reading), event);
        assert_eq!(state, streaming("a", StreamStep::Reading));
        assert_eq!(action, UploadAction::Ignore);
    }
    for event in [UploadEvent::Chunk, UploadEvent::EndOfPart, UploadEvent::ChunkNotRead] {
        let (state, action) = config.step(streaming("a", StreamStep::Writing), event);
        assert_eq!(state, streaming("a", StreamStep::Writing));
        assert_eq!(action, UploadAction::Ignore);
    }
}

#[test]
fn states_that_are_not_final_have_no_answer() {
    assert_eq!(answer(UploadState::Idle), None);
    assert_eq!(answer(UploadState::ReceivingPart), None);
    assert_eq!(answer(streaming("a", StreamStep::Opening)), None);
    assert_eq!(answer(streaming("a", StreamStep::Reading)), None);
    assert_eq!(answer(streaming("a", StreamStep::Writing)), None);
}

#[test]
fn location_depends_on_name_and_base_alone() {
    let config = UploadConfig::new("/data".to_string(), "http://files.test/u".to_string(), false);
    let (first, _) = config.step(streaming("a.png", StreamStep::Reading), UploadEvent::EndOfPart);
    let (state, _) = config.step(streaming("a.png", StreamStep::Reading), UploadEvent::Chunk);
    let (state, _) = config.step(state, UploadEvent::Written);
    let (second, _) = config.step(state, UploadEvent::EndOfPart);
    assert_eq!(first, second);
    assert_eq!(first, UploadState::Committed { location: "http://files.test/u/a.png".to_string() });
}

#[test]
fn join_puts_one_separator_between() {
    assert_eq!(blog_backend::paths::join("./uploads", "a.png"), "./uploads/a.png");
    assert_eq!(blog_backend::paths::join("", "a"), "/a");
    assert_eq!(blog_backend::paths::join("base", ""), "base/");
    assert_eq!(blog_backend::paths::join("", ""), "/");
}
