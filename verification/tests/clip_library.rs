use rscapt::clips::{scan_dir, sort_clips, Clip, ClipLibrary, DirEntry, ShareStore};
use rscapt::setup::fmt_bytes;

fn size_label_f64(size_bytes: u64) -> String {
    let mb = size_bytes as f64 / 1_048_576.0;
    if mb >= 1024.0 {
        format!("{:.1} GB", mb / 1024.0)
    } else {
        format!("{:.0} MB", mb)
    }
}

fn fmt_bytes_f64(b: u64) -> String {
    if b >= 1_048_576 {
        format!("{:.0} MB", b as f64 / 1_048_576.0)
    } else {
        format!("{:.0} KB", b as f64 / 1024.0)
    }
}

#[test]
fn size_labels() {
    assert_eq!(Clip::from_path("a.mp4".to_string(), 0).size_label(), "0 MB");
    assert_eq!(Clip::from_path("a.mp4".to_string(), 234 * 1_048_576).size_label(), "234 MB");
    assert_eq!(Clip::from_path("a.mp4".to_string(), 1_610_612_736).size_label(), "1.5 GB");
    assert_eq!(Clip::from_path("a.mp4".to_string(), 1_073_741_824).size_label(), "1.0 GB");
    // Halfway values round to the even neighbour.
    assert_eq!(Clip::from_path("a.mp4".to_string(), 1_572_864).size_label(), "2 MB");
    assert_eq!(Clip::from_path("a.mp4".to_string(), 2_621_440).size_label(), "2 MB");
}

#[test]
fn size_labels_agree_with_float_formatting() {
    let mut sizes: Vec<u64> = vec![0, 1, 524_287, 524_288, 524_289, 1_048_575, 1_048_576, 3_145_728];
    let mut x: u64 = 12345;
    for _ in 0..2000 {
        x = x.wrapping_mul(6364136223846793005).wrapping_add(1442695040888963407);
        sizes.push(x % (1u64 << 40));
        sizes.push((x % 4096) * 262_144);
        sizes.push((x % 100) * 107_374_182 + 1_073_741_824);
    }
    for s in sizes {
        assert_eq!(Clip::from_path("c.mkv".to_string(), s).size_label(), size_label_f64(s), "size {s}");
        assert_eq!(fmt_bytes(s), fmt_bytes_f64(s), "size {s}");
    }
}

#[test]
fn clip_from_path_takes_the_file_name() {
    let c = Clip::from_path("C:\\Videos\\Captures\\clip_1440p.mp4".to_string(), 5);
    assert_eq!(c.filename, "clip_1440p.mp4");
    assert_eq!(c.size_bytes, 5);
    assert!(c.share_url.is_none() && c.share_delete_token.is_none());
}

#[test]
fn share_store_reads_back_what_was_written() {
    let mut s = ShareStore::new();
    assert!(s.get("a.mp4").is_none());
    s.set("a.mp4", "https://x/1".to_string(), String::new());
    s.set("b.mp4", "https://x/2".to_string(), "tok".to_string());
    s.set("a.mp4", "https://x/3".to_string(), String::new());
    let a = s.get("a.mp4").unwrap();
    assert_eq!(a.url, "https://x/3");
    assert_eq!(s.get("b.mp4").unwrap().token, "tok");
    assert_eq!(s.entries().len(), 2);
    s.remove("a.mp4");
    assert!(s.get("a.mp4").is_none());
    assert!(s.get("b.mp4").is_some());
    s.remove("missing.mp4");
    assert_eq!(s.entries().len(), 1);
    assert_eq!(ShareStore::path("C:\\Users\\me\\AppData\\Roaming\\rscapt"), "C:\\Users\\me\\AppData\\Roaming\\rscapt\\shares.json");
}

#[test]
fn clips_are_listed_newest_name_first() {
    let v = vec![
        Clip::from_path("d\\b.mp4".to_string(), 1),
        Clip::from_path("d\\c.mp4".to_string(), 2),
        Clip::from_path("d\\a.mp4".to_string(), 3),
    ];
    let names: Vec<String> = sort_clips(v).into_iter().map(|c| c.filename).collect();
    assert_eq!(names, vec!["c.mp4", "b.mp4", "a.mp4"]);
}

#[test]
fn scanning_keeps_readable_videos_with_their_shares() {
    let mut shares = ShareStore::new();
    shares.set("out\\x.MKV", "https://x/9".to_string(), String::new());
    let entries = vec![
        DirEntry { path: "out\\a.mp4".to_string(), is_file: true, size_bytes: Some(10) },
        DirEntry { path: "out\\notes.txt".to_string(), is_file: true, size_bytes: Some(1) },
        DirEntry { path: "out\\sub.mp4".to_string(), is_file: false, size_bytes: Some(0) },
        DirEntry { path: "out\\x.MKV".to_string(), is_file: true, size_bytes: Some(20) },
        DirEntry { path: "out\\gone.webm".to_string(), is_file: true, size_bytes: None },
        DirEntry { path: "out\\noext".to_string(), is_file: true, size_bytes: Some(5) },
    ];
    let clips = scan_dir(&entries, &shares);
    let names: Vec<&str> = clips.iter().map(|c| c.filename.as_str()).collect();
    assert_eq!(names, vec!["x.MKV", "a.mp4"]);
    assert_eq!(clips[0].share_url.as_deref(), Some("https://x/9"));
    assert_eq!(clips[0].share_delete_token.as_deref(), Some(""));
    assert!(clips[1].share_url.is_none());
    assert_eq!(clips[1].size_bytes, 10);
}

#[test]
fn library_adds_each_clip_once_and_tracks_shares() {
    let mut lib = ClipLibrary::new();
    assert!(lib.add_if_new(Clip::from_path("o\\a.mp4".to_string(), 1)));
    assert!(lib.add_if_new(Clip::from_path("o\\b.mp4".to_string(), 2)));
    assert!(!lib.add_if_new(Clip::from_path("o\\a.mp4".to_string(), 1)));
    let names: Vec<String> = lib.snapshot().into_iter().map(|c| c.filename).collect();
    assert_eq!(names, vec!["b.mp4", "a.mp4"]);
    lib.set_share("o\\a.mp4", "https://x/a".to_string(), String::new());
    assert_eq!(lib.get_share_token("o\\a.mp4").as_deref(), Some(""));
    let a = lib.snapshot().into_iter().find(|c| c.path == "o\\a.mp4").unwrap();
    assert_eq!(a.share_url.as_deref(), Some("https://x/a"));
    lib.clear_share("o\\a.mp4");
    assert!(lib.get_share_token("o\\a.mp4").is_none());
    let a = lib.snapshot().into_iter().find(|c| c.path == "o\\a.mp4").unwrap();
    assert!(a.share_url.is_none());
}

#[test]
fn video_extensions_match_their_unicode_lowercase() {
    let shares = ShareStore::new();
    let entries = vec![
        DirEntry { path: "out\\k.m\u{212A}v".to_string(), is_file: true, size_bytes: Some(3) },
        DirEntry { path: "out\\s.\u{3A3}P4".to_string(), is_file: true, size_bytes: Some(3) },
    ];
    assert_eq!("m\u{212A}v".to_lowercase(), "mkv");
    let clips = scan_dir(&entries, &shares);
    let names: Vec<&str> = clips.iter().map(|c| c.filename.as_str()).collect();
    assert_eq!(names, vec!["k.m\u{212A}v"]);
}
