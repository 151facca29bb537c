//! What the dashboard shows for a session: every text and where it goes.
//! The result is plain data; painting it is left to the caller.

use crate::app::{
    client_views, file_views, App, AppView, Client, ClientView, ConnectionType, File, FileView,
    Ipv4Addr,
};
use crate::text::{decimal, decimal_string, push_decimal};
use vstd::prelude::*;
use vstd::string::*;

verus! {

/// Where a text sits within the width of its bar.
#[derive(Debug, Clone, Copy, PartialEq, Eq, Structural)]
pub enum Alignment {
    Left,
    Center,
    Right,
}

/// A part of the available width: `part` out of `whole` equal parts.
#[derive(Debug, Clone, Copy, PartialEq, Eq, Structural)]
pub struct Share {
    pub part: u32,
    pub whole: u32,
}

/// A bar as contracts see it.
pub struct BarView {
    pub text: Seq<char>,
    pub alignment: Alignment,
}

/// A bar across the screen that holds one text.
#[derive(Debug)]
pub struct Bar {
    pub text: String,
    pub alignment: Alignment,
}

impl View for Bar {
    type V = BarView;

    open spec fn view(&self) -> BarView {
        BarView { text: self.text@, alignment: self.alignment }
    }
}

/// One line of a file pane as contracts see it.
pub struct FileRowView {
    pub name: Seq<char>,
    pub size: Seq<char>,
}

/// One line of a file pane: the name of a file and its size in words.
#[derive(Debug)]
pub struct FileRow {
    pub name: String,
    pub size: String,
}

impl View for FileRow {
    type V = FileRowView;

    open spec fn view(&self) -> FileRowView {
        FileRowView { name: self.name@, size: self.size@ }
    }
}

/// A file pane as contracts see it.
pub struct FilePaneView {
    pub title: Seq<char>,
    pub width: Share,
    pub rows: Seq<FileRowView>,
    pub highlighted: Option<int>,
}

/// A titled list of files, one of whose lines may be highlighted. The pane
/// takes `width` of the row it stands in.
#[derive(Debug)]
pub struct FilePane {
    pub title: String,
    pub width: Share,
    pub rows: Vec<FileRow>,
    pub highlighted: Option<usize>,
}

impl View for FilePane {
    type V = FilePaneView;

    open spec fn view(&self) -> FilePaneView {
        FilePaneView {
            title: self.title@,
            width: self.width,
            rows: self.rows@.map_values(|r: FileRow| r@),
            highlighted: match self.highlighted {
                Some(i) => Some(i as int),
                None => None,
            },
        }
    }
}

/// One line of the peer table as contracts see it.
pub struct PeerRowView {
    pub ip: Seq<char>,
    pub status: Seq<char>,
}

/// One line of the peer table: two cells.
#[derive(Debug)]
pub struct PeerRow {
    pub ip: String,
    pub status: String,
}

impl View for PeerRow {
    type V = PeerRowView;

    open spec fn view(&self) -> PeerRowView {
        PeerRowView { ip: self.ip@, status: self.status@ }
    }
}

/// The peer table as contracts see it.
pub struct PeerTableView {
    pub title: Seq<char>,
    pub header: PeerRowView,
    pub header_margin: u16,
    pub rows: Seq<PeerRowView>,
}

/// The table of connected peers: a header line, `header_margin` empty lines
/// that set it off, then one line per peer.
#[derive(Debug)]
pub struct PeerTable {
    pub title: String,
    pub header: PeerRow,
    pub header_margin: u16,
    pub rows: Vec<PeerRow>,
}

impl View for PeerTable {
    type V = PeerTableView;

    open spec fn view(&self) -> PeerTableView {
        PeerTableView {
            title: self.title@,
            header: self.header@,
            header_margin: self.header_margin,
            rows: self.rows@.map_values(|r: PeerRow| r@),
        }
    }
}

/// The middle of the screen as contracts see it.
pub enum BodyView {
    Blank,
    Files { available: FilePaneView, downloading: FilePaneView, finished: FilePaneView },
    Peers { table: PeerTableView },
}

/// The middle of the screen. A connecting session shows three file panes of
/// equal width side by side, a hosting session the peer table, and a session
/// that is not configured nothing.
#[derive(Debug)]
pub enum Body {
    Blank,
    Files { available: FilePane, downloading: FilePane, finished: FilePane },
    Peers { table: PeerTable },
}

impl View for Body {
    type V = BodyView;

    open spec fn view(&self) -> BodyView {
        match self {
            Body::Blank => BodyView::Blank,
            Body::Files { available, downloading, finished } => BodyView::Files {
                available: available@,
                downloading: downloading@,
                finished: finished@,
            },
            Body::Peers { table } => BodyView::Peers { table: table@ },
        }
    }
}

/// The screen as contracts see it.
pub struct ScreenView {
    pub title: BarView,
    pub body: BodyView,
    pub info: BarView,
}

/// The whole screen: the title bar on top, the body in the middle, the info
/// bar below.
#[derive(Debug)]
pub struct Screen {
    pub title: Bar,
    pub body: Body,
    pub info: Bar,
}

impl View for Screen {
    type V = ScreenView;

    open spec fn view(&self) -> ScreenView {
        ScreenView { title: self.title@, body: self.body@, info: self.info@ }
    }
}

/// The size of a file in words: the number of bytes, then `" bytes"`.
pub open spec fn size_text(size: u64) -> Seq<char> {
    decimal(size as nat) + " bytes"@
}

/// The line that stands for `file`.
pub open spec fn file_row(file: FileView) -> FileRowView {
    FileRowView { name: file.name, size: size_text(file.size) }
}

/// The three file panes stand side by side and are equally wide.
pub open spec fn pane_width() -> Share {
    Share { part: 1, whole: 3 }
}

/// The pane titled `title` over `files`: one line per file, in order, on a
/// third of the row.
pub open spec fn file_pane(
    title: Seq<char>,
    files: Seq<FileView>,
    highlighted: Option<int>,
) -> FilePaneView {
    FilePaneView {
        title,
        width: pane_width(),
        rows: files.map_values(|f: FileView| file_row(f)),
        highlighted,
    }
}

/// An address in dotted decimal.
pub open spec fn ip_text(ip: Ipv4Addr) -> Seq<char> {
    decimal(ip.a as nat) + "."@ + decimal(ip.b as nat) + "."@ + decimal(ip.c as nat) + "."@
        + decimal(ip.d as nat)
}

/// The line that stands for `peer`.
pub open spec fn peer_row(peer: ClientView) -> PeerRowView {
    PeerRowView { ip: ip_text(peer.ip), status: peer.status.spec_name() }
}

/// The table over `peers`: the header `IP`, `Status`, two empty lines, then
/// one line per peer, in order.
pub open spec fn peer_table(peers: Seq<ClientView>) -> PeerTableView {
    PeerTableView {
        title: "Connected"@,
        header: PeerRowView { ip: "IP"@, status: "Status"@ },
        header_margin: 2,
        rows: peers.map_values(|p: ClientView| peer_row(p)),
    }
}

/// The text of the info bar: the host's address and password when hosting,
/// the three file counts when connecting, nothing otherwise.
pub open spec fn info_text(app: AppView) -> Seq<char> {
    match app.connection_type {
        ConnectionType::Host => "IP: "@ + ip_text(app.host_info.ip) + "  Password: "@
            + app.host_info.password,
        ConnectionType::Connect => "Available: "@ + decimal(app.available_files.items.len())
            + "  Downloading: "@ + decimal(app.downloading_files.len()) + "  Finished: "@
            + decimal(app.finished_files.len()),
        ConnectionType::Unset => Seq::empty(),
    }
}

/// The middle of the screen for `app`. Only the pane of files on offer
/// carries the cursor as its highlight.
pub open spec fn body(app: AppView) -> BodyView {
    match app.connection_type {
        ConnectionType::Connect => BodyView::Files {
            available: file_pane(
                "Available"@,
                app.available_files.items,
                app.available_files.cursor,
            ),
            downloading: file_pane("Downloading"@, app.downloading_files, None),
            finished: file_pane("Finished"@, app.finished_files, None),
        },
        ConnectionType::Host => BodyView::Peers { table: peer_table(app.connected_clients) },
        ConnectionType::Unset => BodyView::Blank,
    }
}

/// The screen for `app`: its title in the middle of the top bar, the body
/// that goes with its mode, and its info text in the middle of the bottom
/// bar. Both bars are there in every mode.
pub open spec fn screen(app: AppView) -> ScreenView {
    ScreenView {
        title: BarView { text: app.title, alignment: Alignment::Center },
        body: body(app),
        info: BarView { text: info_text(app), alignment: Alignment::Center },
    }
}

/// The dotted-decimal text of `ip`.
pub fn ip_string(ip: Ipv4Addr) -> (s: String)
    ensures
        s@ == ip_text(ip),
{
    let mut s = decimal_string(ip.a as u64);
    s.append(".");
    push_decimal(&mut s, ip.b as u64);
    s.append(".");
    push_decimal(&mut s, ip.c as u64);
    s.append(".");
    push_decimal(&mut s, ip.d as u64);
    s
}

/// The title bar: the session's title, centered.
pub fn titlebar(app: &App) -> (bar: Bar)
    ensures
        bar@ == screen(app@).title,
{
    Bar { text: String::from_str(app.title), alignment: Alignment::Center }
}

/// The info bar of `app`, centered.
pub fn infobar(app: &App) -> (bar: Bar)
    ensures
        bar@ == screen(app@).info,
{
    Bar { text: info_string(app), alignment: Alignment::Center }
}

/// The text of the info bar of `app`.
pub fn info_string(app: &App) -> (text: String)
    ensures
        text@ == info_text(app@),
{
    match app.connection_type {
        ConnectionType::Host => {
            let mut text = String::from_str("IP: ");
            let ip = ip_string(app.host_info.ip());
            text.append(ip.as_str());
            text.append("  Password: ");
            text.append(app.host_info.password());
            text
        },
        ConnectionType::Connect => {
            let mut text = String::from_str("Available: ");
            push_decimal(&mut text, app.available_files.len() as u64);
            text.append("  Downloading: ");
            push_decimal(&mut text, app.downloading_files.len() as u64);
            text.append("  Finished: ");
            push_decimal(&mut text, app.finished_files.len() as u64);
            assert(file_views(app.downloading_files@).len() == app.downloading_files@.len());
            assert(file_views(app.finished_files@).len() == app.finished_files@.len());
            text
        },
        ConnectionType::Unset => String::new(),
    }
}

/// The pane titled `title` over `items`, with `highlighted` as its
/// highlight.
pub fn filemenu(items: &Vec<File>, title: &str, highlighted: Option<usize>) -> (pane: FilePane)
    ensures
        pane@ == file_pane(
            title@,
            file_views(items@),
            match highlighted {
                Some(i) => Some(i as int),
                None => None,
            },
        ),
{
    let mut rows: Vec<FileRow> = Vec::new();
    let mut i: usize = 0;
    while i < items.len()
        invariant
            i <= items.len(),
            rows@.len() == i,
            forall|k: int| 0 <= k < i ==> (#[trigger] rows@[k])@ == file_row(items@[k]@),
        decreases items.len() - i,
    {
        let file = &items[i];
        let mut size = decimal_string(file.size());
        size.append(" bytes");
        rows.push(FileRow { name: String::from_str(file.name()), size });
        i += 1;
    }
    let pane = FilePane {
        title: String::from_str(title),
        width: Share { part: 1, whole: 3 },
        rows,
        highlighted,
    };
    assert(pane@.rows =~= file_views(items@).map_values(|f: FileView| file_row(f)));
    pane
}

/// The table of the connected peers `items`.
pub fn clientmenu(items: &Vec<Client>) -> (table: PeerTable)
    ensures
        table@ == peer_table(client_views(items@)),
{
    let mut rows: Vec<PeerRow> = Vec::new();
    let mut i: usize = 0;
    while i < items.len()
        invariant
            i <= items.len(),
            rows@.len() == i,
            forall|k: int| 0 <= k < i ==> (#[trigger] rows@[k])@ == peer_row(items@[k]@),
        decreases items.len() - i,
    {
        let client = &items[i];
        rows.push(
            PeerRow {
                ip: ip_string(client.ip()),
                status: String::from_str(client.status().name()),
            },
        );
        i += 1;
    }
    let table = PeerTable {
        title: String::from_str("Connected"),
        header: PeerRow { ip: String::from_str("IP"), status: String::from_str("Status") },
        header_margin: 2,
        rows,
    };
    assert(table@.rows =~= client_views(items@).map_values(|p: ClientView| peer_row(p)));
    table
}

/// Lays out the screen for `app`. The session is only read.
pub fn draw(app: &App) -> (shown: Screen)
    ensures
        shown@ == screen(app@),
{
    let body = match app.connection_type {
        ConnectionType::Connect => Body::Files {
            available: filemenu(
                app.available_files.items(),
                "Available",
                app.available_files.selected(),
            ),
            downloading: filemenu(&app.downloading_files, "Downloading", None),
            finished: filemenu(&app.finished_files, "Finished", None),
        },
        ConnectionType::Host => Body::Peers { table: clientmenu(&app.connected_clients) },
        ConnectionType::Unset => Body::Blank,
    };
    Screen { title: titlebar(app), body, info: infobar(app) }
}

} // verus!
