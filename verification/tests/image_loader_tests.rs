use wpaperd_core::image_loader::{DecodedImage, ImageLoader, ImageLoaderStatus, TaskPoll};

fn sample_image(seed: u8) -> DecodedImage {
    DecodedImage {
        width: 2,
        height: 1,
        pixels: vec![seed, 0, 0, 255, 0, seed, 0, 255],
    }
}

#[test]
fn first_request_spawns_and_waits() {
    let mut loader = ImageLoader::new();
    assert!(!loader.contains_path("wall.png"));
    let status = loader.background_load(
        String::from("wall.png"),
        String::from("monitor-1"),
        TaskPoll::Running,
    );
    assert!(matches!(status, ImageLoaderStatus::Waiting));
    // the entry is recorded, so a caller that sees it does not spawn again
    assert!(loader.contains_path("wall.png"));
}

#[test]
fn pending_poll_keeps_waiting() {
    let mut loader = ImageLoader::new();
    loader.background_load(
        String::from("wall.png"),
        String::from("monitor-1"),
        TaskPoll::Running,
    );
    let status = loader.background_load(
        String::from("wall.png"),
        String::from("monitor-1"),
        TaskPoll::Running,
    );
    assert!(matches!(status, ImageLoaderStatus::Waiting));
    assert!(loader.contains_path("wall.png"));
}

#[test]
fn sole_requester_consumes_entry() {
    let mut loader = ImageLoader::new();
    loader.background_load(
        String::from("wall.png"),
        String::from("monitor-1"),
        TaskPoll::Running,
    );
    let status = loader.background_load(
        String::from("wall.png"),
        String::from("monitor-1"),
        TaskPoll::Finished(Some(sample_image(7))),
    );
    match status {
        ImageLoaderStatus::Loaded(img) => {
            assert_eq!(img.width, 2);
            assert_eq!(img.height, 1);
            assert_eq!(img.pixels, sample_image(7).pixels);
        }
        _ => panic!("expected the decoded buffer"),
    }
    // no leak: the first poll after completion removed the entry
    assert!(!loader.contains_path("wall.png"));
}

#[test]
fn failed_decode_purges_entry() {
    let mut loader = ImageLoader::new();
    loader.background_load(
        String::from("wall.png"),
        String::from("monitor-1"),
        TaskPoll::Running,
    );
    let status = loader.background_load(
        String::from("wall.png"),
        String::from("monitor-1"),
        TaskPoll::Finished(None),
    );
    assert!(matches!(status, ImageLoaderStatus::Error));
    assert!(!loader.contains_path("wall.png"));
}

#[test]
fn request_after_failure_starts_over() {
    let mut loader = ImageLoader::new();
    loader.background_load(
        String::from("wall.png"),
        String::from("monitor-1"),
        TaskPoll::Running,
    );
    let failed = loader.background_load(
        String::from("wall.png"),
        String::from("monitor-1"),
        TaskPoll::Finished(None),
    );
    assert!(matches!(failed, ImageLoaderStatus::Error));

    // identical to a first-ever request: the caller sees no entry (so it
    // spawns a fresh decode) and is told to wait
    assert!(!loader.contains_path("wall.png"));
    let retried = loader.background_load(
        String::from("wall.png"),
        String::from("monitor-1"),
        TaskPoll::Running,
    );
    assert!(matches!(retried, ImageLoaderStatus::Waiting));
    assert!(loader.contains_path("wall.png"));

    // and the fresh decode can complete normally
    let done = loader.background_load(
        String::from("wall.png"),
        String::from("monitor-1"),
        TaskPoll::Finished(Some(sample_image(3))),
    );
    match done {
        ImageLoaderStatus::Loaded(img) => assert_eq!(img.pixels, sample_image(3).pixels),
        _ => panic!("expected the decoded buffer"),
    }
}

#[test]
fn shared_path_spawns_one_decode_and_serves_both() {
    let mut loader = ImageLoader::new();

    // monitor-1 requests first: no entry, so its caller spawns the decode
    assert!(!loader.contains_path("shared.png"));
    let first = loader.background_load(
        String::from("shared.png"),
        String::from("monitor-1"),
        TaskPoll::Running,
    );
    assert!(matches!(first, ImageLoaderStatus::Waiting));

    // monitor-2 requests while the decode runs: the entry exists, so no
    // second decode is spawned, and monitor-2 is recorded as a requester
    assert!(loader.contains_path("shared.png"));
    let second = loader.background_load(
        String::from("shared.png"),
        String::from("monitor-2"),
        TaskPoll::Running,
    );
    assert!(matches!(second, ImageLoaderStatus::Waiting));

    // the decode finishes; monitor-2 polls first and receives a copy,
    // leaving the entry (and its buffer) for the other recorded requester
    let got2 = loader.background_load(
        String::from("shared.png"),
        String::from("monitor-2"),
        TaskPoll::Finished(Some(sample_image(9))),
    );
    match got2 {
        ImageLoaderStatus::Loaded(img) => assert_eq!(img.pixels, sample_image(9).pixels),
        _ => panic!("expected the decoded buffer"),
    }
    assert!(loader.contains_path("shared.png"));

    // monitor-1, the sole recorded requester, consumes the entry
    let got1 = loader.background_load(
        String::from("shared.png"),
        String::from("monitor-1"),
        TaskPoll::Running,
    );
    match got1 {
        ImageLoaderStatus::Loaded(img) => assert_eq!(img.pixels, sample_image(9).pixels),
        _ => panic!("expected the decoded buffer"),
    }
    assert!(!loader.contains_path("shared.png"));
}

#[test]
fn completion_order_does_not_matter() {
    // same as above, but the first requester polls first: because the
    // second one was recorded while the decode ran, the first gets a copy
    // and the entry survives until the second consumes it — both receive
    // the one decode's pixels, with no second decode
    let mut loader = ImageLoader::new();
    loader.background_load(
        String::from("shared.png"),
        String::from("monitor-1"),
        TaskPoll::Running,
    );
    loader.background_load(
        String::from("shared.png"),
        String::from("monitor-2"),
        TaskPoll::Running,
    );
    let got1 = loader.background_load(
        String::from("shared.png"),
        String::from("monitor-1"),
        TaskPoll::Finished(Some(sample_image(5))),
    );
    match got1 {
        ImageLoaderStatus::Loaded(img) => assert_eq!(img.pixels, sample_image(5).pixels),
        _ => panic!("expected the decoded buffer"),
    }
    assert!(loader.contains_path("shared.png"));

    let got2 = loader.background_load(
        String::from("shared.png"),
        String::from("monitor-2"),
        TaskPoll::Running,
    );
    match got2 {
        ImageLoaderStatus::Loaded(img) => assert_eq!(img.pixels, sample_image(5).pixels),
        _ => panic!("expected the decoded buffer"),
    }
    assert!(!loader.contains_path("shared.png"));
}

#[test]
fn repeat_poll_does_not_duplicate_requester() {
    // a requester is recorded by its first call and not re-added: after
    // repeated pending polls it is still the sole requester, so the first
    // poll that finds the buffer consumes the entry
    let mut loader = ImageLoader::new();
    for _ in 0..3 {
        let status = loader.background_load(
            String::from("wall.png"),
            String::from("monitor-1"),
            TaskPoll::Running,
        );
        assert!(matches!(status, ImageLoaderStatus::Waiting));
    }
    let status = loader.background_load(
        String::from("wall.png"),
        String::from("monitor-1"),
        TaskPoll::Finished(Some(sample_image(4))),
    );
    assert!(matches!(status, ImageLoaderStatus::Loaded(_)));
    assert!(!loader.contains_path("wall.png"));
}

#[test]
fn no_entry_ever_waits_on_zero_requesters() {
    // randomized add/complete/fail sequences never leave an entry with an
    // empty requester list: the debug sweep must succeed after every step
    let mut loader = ImageLoader::new();
    let paths = ["a.png", "b.png", "c.png"];
    let monitors = ["monitor-1", "monitor-2"];
    let mut state: u64 = 0x2545_f491_4f6c_dd1d;
    for _ in 0..400 {
        state = state.wrapping_mul(6364136223846793005).wrapping_add(1442695040888963407);
        let path = paths[(state >> 33) as usize % paths.len()];
        let monitor = monitors[(state >> 21) as usize % monitors.len()];
        let poll = match (state >> 11) % 4 {
            0 => TaskPoll::Running,
            1 => TaskPoll::Finished(None),
            _ => TaskPoll::Finished(Some(sample_image((state >> 5) as u8))),
        };
        loader.background_load(String::from(path), String::from(monitor), poll);
        assert!(loader.check_lingering_threads());
    }
}
