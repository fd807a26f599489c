//! What the shell tells the user about a download, and whether it lets the
//! download go ahead.

use vstd::prelude::*;
use vstd::string::StringExecFns;

verus! {

/// A message for the user: a title and a line of text under it.
#[derive(Debug, Clone)]
pub struct Notice {
    pub title: String,
    pub body: String,
}

impl View for Notice {
    type V = (Seq<char>, Seq<char>);

    open spec fn view(&self) -> (Seq<char>, Seq<char>) {
        (self.title@, self.body@)
    }
}

/// Where a requested download will be saved.
#[derive(Debug, Clone)]
pub struct DownloadTarget {
    /// The destination inside the Downloads folder, as shown to the user.
    pub path: String,
    /// The last component of the destination, where it has one that is text.
    pub file_name: Option<String>,
}

/// What the embedded browser reports about a download.
#[derive(Debug, Clone)]
pub enum DownloadEvent {
    /// A download asks to start.  `target` is `None` where the Downloads
    /// folder could not be found.
    Requested { target: Option<DownloadTarget> },
    /// A download ended.
    Finished { success: bool },
    /// Anything else.
    Other,
}

/// The shell's answer to a download event.
#[derive(Debug, Clone)]
pub struct DownloadReply {
    /// Whether the browser may go on with the download.
    pub proceed: bool,
    /// The message to show, if any.
    pub notice: Option<Notice>,
}

/// Remembers where the latest download was sent, for the message at its end.
#[derive(Debug, Clone)]
pub struct DownloadHandler {
    last_path: Option<String>,
}

/// The text that `text` holds, if it holds one.
pub open spec fn text_of(text: Option<String>) -> Option<Seq<char>> {
    match text {
        Some(text) => Some(text@),
        None => None,
    }
}

/// The message for a download that starts: it names the file, or says `file`
/// where there is no name to give.
pub open spec fn started_notice(file_name: Option<Seq<char>>) -> (Seq<char>, Seq<char>) {
    (
        "Downloading file"@,
        "Saving: "@ + match file_name {
            Some(name) => name,
            None => "file"@,
        },
    )
}

/// The message for a download to `path` that ended.
pub open spec fn finished_notice(success: bool, path: Seq<char>) -> (Seq<char>, Seq<char>) {
    if success {
        ("Download completed"@, "Saved to: "@ + path)
    } else {
        ("Download failed"@, "Could not complete the download"@)
    }
}

/// The message for the end of a download, given the destination remembered
/// from its start: none where none was remembered.
pub open spec fn finished_notice_for(success: bool, last_path: Option<Seq<char>>) -> Option<
    (Seq<char>, Seq<char>),
> {
    match last_path {
        Some(path) => Some(finished_notice(success, path)),
        None => None,
    }
}

impl View for DownloadHandler {
    type V = Option<Seq<char>>;

    /// The destination of the latest download that was let through.
    closed spec fn view(&self) -> Option<Seq<char>> {
        text_of(self.last_path)
    }
}

impl DownloadReply {
    /// The message of this reply, as text.
    pub open spec fn notice_view(&self) -> Option<(Seq<char>, Seq<char>)> {
        match self.notice {
            Some(notice) => Some(notice@),
            None => None,
        }
    }
}

/// A handler that has seen no download yet.
pub fn create_download_handler() -> (handler: DownloadHandler)
    ensures
        handler@ is None,
{
    DownloadHandler { last_path: None }
}

fn notice_of_start(file_name: &Option<String>) -> (notice: Notice)
    ensures
        notice@ == started_notice(text_of(*file_name)),
{
    let mut body = "Saving: ".to_owned();
    match file_name {
        Some(name) => body.append(name.as_str()),
        None => body.append("file"),
    }
    Notice { title: "Downloading file".to_owned(), body }
}

fn notice_of_end(success: bool, path: &String) -> (notice: Notice)
    ensures
        notice@ == finished_notice(success, path@),
{
    if success {
        let mut body = "Saved to: ".to_owned();
        body.append(path.as_str());
        Notice { title: "Download completed".to_owned(), body }
    } else {
        Notice {
            title: "Download failed".to_owned(),
            body: "Could not complete the download".to_owned(),
        }
    }
}

impl DownloadHandler {
    /// Answers `event`.  A request without a destination is refused and
    /// leaves no trace; one with a destination is let through, remembered and
    /// announced.  The end of a download is announced where a destination is
    /// remembered.  Nothing else is refused or announced.
    pub fn handle(&mut self, event: DownloadEvent) -> (reply: DownloadReply)
        ensures
            match event {
                DownloadEvent::Requested { target: None } => {
                    &&& final(self)@ == old(self)@
                    &&& !reply.proceed
                    &&& reply.notice is None
                },
                DownloadEvent::Requested { target: Some(target) } => {
                    &&& final(self)@ == Some(target.path@)
                    &&& reply.proceed
                    &&& reply.notice_view() == Some(started_notice(text_of(target.file_name)))
                },
                DownloadEvent::Finished { success } => {
                    &&& final(self)@ == old(self)@
                    &&& reply.proceed
                    &&& reply.notice_view() == finished_notice_for(success, old(self)@)
                },
                DownloadEvent::Other => {
                    &&& final(self)@ == old(self)@
                    &&& reply.proceed
                    &&& reply.notice is None
                },
            },
    {
        match event {
            DownloadEvent::Requested { target: None } => DownloadReply {
                proceed: false,
                notice: None,
            },
            DownloadEvent::Requested { target: Some(target) } => {
                let notice = notice_of_start(&target.file_name);
                self.last_path = Some(target.path);
                DownloadReply { proceed: true, notice: Some(notice) }
            },
            DownloadEvent::Finished { success } => {
                let notice = match &self.last_path {
                    Some(path) => Some(notice_of_end(success, path)),
                    None => None,
                };
                DownloadReply { proceed: true, notice }
            },
            DownloadEvent::Other => DownloadReply { proceed: true, notice: None },
        }
    }
}

} // verus!
