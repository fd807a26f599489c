use chatgpt_shell::downloads::{
    create_download_handler, DownloadEvent, DownloadReply, DownloadTarget, Notice,
};

fn request(path: &str, file_name: Option<&str>) -> DownloadEvent {
    DownloadEvent::Requested {
        target: Some(DownloadTarget {
            path: path.to_string(),
            file_name: file_name.map(str::to_string),
        }),
    }
}

fn notice(reply: &DownloadReply) -> Option<(&str, &str)> {
    reply.notice.as_ref().map(|Notice { title, body }| (title.as_str(), body.as_str()))
}

#[test]
fn request_is_let_through_and_announced() {
    let mut handler = create_download_handler();
    let reply = handler.handle(request("/home/u/Downloads/report.pdf", Some("report.pdf")));
    assert!(reply.proceed);
    assert_eq!(notice(&reply), Some(("Downloading file", "Saving: report.pdf")));
}

#[test]
fn request_without_a_file_name_says_file() {
    let mut handler = create_download_handler();
    let reply = handler.handle(request("/home/u/Downloads/..", None));
    assert!(reply.proceed);
    assert_eq!(notice(&reply), Some(("Downloading file", "Saving: file")));
}

#[test]
fn request_with_an_empty_file_name_keeps_it() {
    let mut handler = create_download_handler();
    let reply = handler.handle(request("/home/u/Downloads", Some("")));
    assert_eq!(notice(&reply), Some(("Downloading file", "Saving: ")));
}

#[test]
fn request_without_downloads_folder_is_refused() {
    let mut handler = create_download_handler();
    let reply = handler.handle(DownloadEvent::Requested { target: None });
    assert!(!reply.proceed);
    assert!(reply.notice.is_none());
    // Nothing was remembered: the end of that download is not announced.
    let reply = handler.handle(DownloadEvent::Finished { success: true });
    assert!(reply.proceed);
    assert!(reply.notice.is_none());
}

#[test]
fn refused_request_keeps_the_earlier_destination() {
    let mut handler = create_download_handler();
    handler.handle(request("/d/first.txt", Some("first.txt")));
    let reply = handler.handle(DownloadEvent::Requested { target: None });
    assert!(!reply.proceed);
    let reply = handler.handle(DownloadEvent::Finished { success: true });
    assert_eq!(notice(&reply), Some(("Download completed", "Saved to: /d/first.txt")));
}

#[test]
fn finish_before_any_request_is_silent() {
    let mut handler = create_download_handler();
    for success in [true, false] {
        let reply = handler.handle(DownloadEvent::Finished { success });
        assert!(reply.proceed);
        assert!(reply.notice.is_none());
    }
}

#[test]
fn successful_finish_names_the_destination() {
    let mut handler = create_download_handler();
    handler.handle(request("C:\\Users\\u\\Downloads\\a b.zip", Some("a b.zip")));
    let reply = handler.handle(DownloadEvent::Finished { success: true });
    assert!(reply.proceed);
    assert_eq!(
        notice(&reply),
        Some(("Download completed", "Saved to: C:\\Users\\u\\Downloads\\a b.zip"))
    );
}

#[test]
fn failed_finish_says_so() {
    let mut handler = create_download_handler();
    handler.handle(request("/d/a.txt", Some("a.txt")));
    let reply = handler.handle(DownloadEvent::Finished { success: false });
    assert!(reply.proceed);
    assert_eq!(notice(&reply), Some(("Download failed", "Could not complete the download")));
}

#[test]
fn latest_request_is_the_one_remembered() {
    let mut handler = create_download_handler();
    handler.handle(request("/d/one.txt", Some("one.txt")));
    handler.handle(request("/d/two.txt", Some("two.txt")));
    let reply = handler.handle(DownloadEvent::Finished { success: true });
    assert_eq!(notice(&reply), Some(("Download completed", "Saved to: /d/two.txt")));
    // The destination stays on record after the download ended.
    let reply = handler.handle(DownloadEvent::Finished { success: true });
    assert_eq!(notice(&reply), Some(("Download completed", "Saved to: /d/two.txt")));
}

#[test]
fn other_events_pass_unnoticed() {
    let mut handler = create_download_handler();
    let reply = handler.handle(DownloadEvent::Other);
    assert!(reply.proceed);
    assert!(reply.notice.is_none());
    handler.handle(request("/d/a.txt", Some("a.txt")));
    let reply = handler.handle(DownloadEvent::Other);
    assert!(reply.proceed);
    assert!(reply.notice.is_none());
    let reply = handler.handle(DownloadEvent::Finished { success: true });
    assert_eq!(notice(&reply), Some(("Download completed", "Saved to: /d/a.txt")));
}

#[test]
fn texts_outside_ascii_are_kept_as_they_are() {
    let mut handler = create_download_handler();
    let reply = handler.handle(request("/d/r\u{e9}sum\u{e9} \u{1f4c4}.pdf", Some("r\u{e9}sum\u{e9} \u{1f4c4}.pdf")));
    assert_eq!(notice(&reply), Some(("Downloading file", "Saving: r\u{e9}sum\u{e9} \u{1f4c4}.pdf")));
    let reply = handler.handle(DownloadEvent::Finished { success: true });
    assert_eq!(
        notice(&reply),
        Some(("Download completed", "Saved to: /d/r\u{e9}sum\u{e9} \u{1f4c4}.pdf"))
    );
}
