//! The messages that show a listing and a download's progress.

use crate::bot::callback::{encode, encoded, Callback, CallbackView};
use crate::cloudreve::list_files::{list_error_text, ListError, ListErrorView};
use crate::cloudreve::remote_list::{DownloadSummary, DownloadSummaryView};
use crate::listing::{entries_view, listed_view, FileEntry, FileEntryView, FileKind};
use crate::text::{decimal, join, push_decimal};
use vstd::prelude::*;
use vstd::utf8::encode_utf8;

verus! {

/// A button under a message: what it shows and the data it carries.
#[derive(Debug, PartialEq)]
pub struct Button {
    pub text: String,
    pub data: String,
}

/// The mathematical value of a [`Button`].
pub struct ButtonView {
    pub text: Seq<char>,
    pub data: Seq<char>,
}

impl View for Button {
    type V = ButtonView;

    open spec fn view(&self) -> ButtonView {
        ButtonView { text: self.text@, data: self.data@ }
    }
}

/// The values of a row of buttons.
pub open spec fn row_view(row: Seq<Button>) -> Seq<ButtonView> {
    Seq::new(row.len(), |i: int| row[i]@)
}

/// The values of the rows of a keyboard.
pub open spec fn keyboard_view(rows: Seq<Vec<Button>>) -> Seq<Seq<ButtonView>> {
    Seq::new(rows.len(), |i: int| row_view(rows[i]@))
}

/// A message with the buttons under it.
#[derive(Debug, PartialEq)]
pub struct ListingMessage {
    pub text: String,
    pub keyboard: Vec<Vec<Button>>,
}

/// The mathematical value of a [`ListingMessage`].
pub struct ListingMessageView {
    pub text: Seq<char>,
    pub keyboard: Seq<Seq<ButtonView>>,
}

impl View for ListingMessage {
    type V = ListingMessageView;

    open spec fn view(&self) -> ListingMessageView {
        ListingMessageView { text: self.text@, keyboard: keyboard_view(self.keyboard@) }
    }
}

/// The most bytes that a button's data may take.
pub const CALLBACK_LIMIT: usize = 64;

/// The number of bytes that a text takes in UTF-8.
pub open spec fn byte_len(s: Seq<char>) -> nat {
    encode_utf8(s).len()
}

/// The data of a button that does nothing.
pub open spec fn no_action() -> Seq<char> {
    "noop"@
}

/// What the button of an entry asks for: to enter a directory, or to link
/// to a file.
pub open spec fn entry_action(e: FileEntryView) -> CallbackView {
    match e.kind {
        FileKind::Directory => CallbackView::ChangeDir(e.path),
        FileKind::File => CallbackView::GetLink(e.path),
    }
}

/// The mark shown before an entry's name.
pub open spec fn entry_mark(kind: FileKind) -> Seq<char> {
    match kind {
        FileKind::Directory => "📁 "@,
        FileKind::File => "📄 "@,
    }
}

/// The button of an entry. Data that would take more than the limit is
/// replaced by the data that does nothing.
pub open spec fn entry_button(e: FileEntryView) -> ButtonView {
    let data = encoded(entry_action(e));
    ButtonView {
        text: entry_mark(e.kind) + e.name,
        data: if byte_len(data) <= CALLBACK_LIMIT {
            data
        } else {
            no_action()
        },
    }
}

/// The row that leads to the neighbouring pages: back from any page but
/// the first, and on where more may follow.
pub open spec fn pager(path: Seq<char>, page: u32, has_more: bool) -> Seq<ButtonView> {
    let back = if page > 0 {
        seq![
            ButtonView {
                text: "⬅️ Prev"@,
                data: encoded(CallbackView::Page(path, (page - 1) as u32)),
            },
        ]
    } else {
        Seq::empty()
    };
    let on = if has_more && page < u32::MAX {
        seq![
            ButtonView {
                text: "Next ➡️"@,
                data: encoded(CallbackView::Page(path, (page + 1) as u32)),
            },
        ]
    } else {
        Seq::empty()
    };
    back + on
}

/// The keyboard under a page: a row for each entry, then the pager where
/// it has a button.
pub open spec fn listing_keyboard(
    path: Seq<char>,
    page: u32,
    entries: Seq<FileEntryView>,
    has_more: bool,
) -> Seq<Seq<ButtonView>> {
    let rows = Seq::new(entries.len(), |i: int| seq![entry_button(entries[i])]);
    let nav = pager(path, page, has_more);
    if nav.len() > 0 {
        rows.push(nav)
    } else {
        rows
    }
}

/// The message that shows what a listing of page `page` of `path` came to.
pub open spec fn listing_message(
    path: Seq<char>,
    page: u32,
    result: Result<(Seq<FileEntryView>, bool), ListErrorView>,
) -> ListingMessageView {
    match result {
        Ok((entries, has_more)) => if entries.len() == 0 && page == 0 {
            ListingMessageView {
                text: "Directory `"@ + path + "` is empty."@,
                keyboard: Seq::empty(),
            }
        } else {
            ListingMessageView {
                text: "Files in `"@ + path + "` (Page "@ + decimal(page as nat) + "):"@,
                keyboard: listing_keyboard(path, page, entries, has_more),
            }
        },
        Err(ListErrorView::Malformed) => ListingMessageView {
            text: list_error_text(ListErrorView::Malformed),
            keyboard: Seq::empty(),
        },
        Err(e) => ListingMessageView {
            text: "Error listing files: "@ + list_error_text(e),
            keyboard: Seq::empty(),
        },
    }
}

/// The message that shows a download's figures.
pub open spec fn status_text(s: DownloadSummaryView) -> Seq<char> {
    "<b>"@ + s.name + "</b>\n文件大小: "@ + s.size_text + "\n下载进度: "@ + s.progress_text
        + "%"@
}

/// The button of an entry.
pub fn button_for(entry: &FileEntry) -> (r: Button)
    ensures
        r@ == entry_button(entry@),
{
    let (mark, action) = match entry.kind {
        FileKind::Directory => ("📁 ", Callback::ChangeDir(entry.path.clone())),
        FileKind::File => ("📄 ", Callback::GetLink(entry.path.clone())),
    };
    let data = encode(&action);
    let data = if data.as_str().as_bytes().len() <= CALLBACK_LIMIT {
        data
    } else {
        String::from_str("noop")
    };
    Button { text: join(mark, entry.name.as_str()), data }
}

/// The row that leads to the neighbouring pages.
pub fn pager_row(path: &str, page: u32, has_more: bool) -> (r: Vec<Button>)
    ensures
        row_view(r@) == pager(path@, page, has_more),
{
    let mut row: Vec<Button> = Vec::new();
    if page > 0 {
        row.push(
            Button {
                text: String::from_str("⬅️ Prev"),
                data: encode(&Callback::Page(String::from_str(path), page - 1)),
            },
        );
    }
    if has_more && page < u32::MAX {
        row.push(
            Button {
                text: String::from_str("Next ➡️"),
                data: encode(&Callback::Page(String::from_str(path), page + 1)),
            },
        );
    }
    row
}

/// The message that shows what a listing of page `page` of `path` came to.
pub fn render_listing(
    path: &str,
    page: u32,
    result: &Result<(Vec<FileEntry>, bool), ListError>,
) -> (r:
    ListingMessage)
    ensures
        r@ == listing_message(path@, page, listed_view(*result)),
{
    match result {
        Ok((entries, has_more)) => {
            if entries.len() == 0 && page == 0 {
                let mut text = String::from_str("Directory `");
                text.append(path);
                text.append("` is empty.");
                let r = ListingMessage { text, keyboard: Vec::new() };
                assert(r@.keyboard =~= Seq::empty());
                r
            } else {
                let mut keyboard: Vec<Vec<Button>> = Vec::new();
                let mut i: usize = 0;
                while i < entries.len()
                    invariant
                        i <= entries.len(),
                        keyboard@.len() == i,
                        forall|k: int|
                            0 <= k < i ==> row_view((#[trigger] keyboard@[k])@) == seq![
                                entry_button(entries@[k]@),
                            ],
                    decreases entries.len() - i,
                {
                    let mut row: Vec<Button> = Vec::new();
                    row.push(button_for(&entries[i]));
                    keyboard.push(row);
                    i += 1;
                }
                let nav = pager_row(path, page, *has_more);
                if nav.len() > 0 {
                    keyboard.push(nav);
                }
                let mut text = String::from_str("Files in `");
                text.append(path);
                text.append("` (Page ");
                push_decimal(&mut text, page as u64);
                text.append("):");
                let r = ListingMessage { text, keyboard };
                assert(r@.keyboard =~= listing_keyboard(
                    path@,
                    page,
                    entries_view(entries@),
                    *has_more,
                ));
                r
            }
        },
        Err(ListError::Malformed) => {
            let r = ListingMessage { text: ListError::Malformed.message(), keyboard: Vec::new() };
            assert(r@.keyboard =~= Seq::empty());
            r
        },
        Err(e) => {
            let inner = e.message();
            let r = ListingMessage {
                text: join("Error listing files: ", inner.as_str()),
                keyboard: Vec::new(),
            };
            assert(r@.keyboard =~= Seq::empty());
            r
        },
    }
}

/// The message that shows a download's figures.
pub fn render_status(summary: &DownloadSummary) -> (r: String)
    ensures
        r@ == status_text(summary@),
{
    let mut text = String::from_str("<b>");
    text.append(summary.name.as_str());
    text.append("</b>\n文件大小: ");
    text.append(summary.size_text.as_str());
    text.append("\n下载进度: ");
    text.append(summary.progress_text.as_str());
    text.append("%");
    text
}

} // verus!
