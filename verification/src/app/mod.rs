//! The session of one run of the dashboard: who is connected, which files
//! are on offer, and what a key press does to them.

use crossterm::event::{KeyCode, MediaKeyCode, ModifierKeyCode};
use vstd::prelude::*;

pub mod list;
pub mod ui;

pub use list::{ListError, ListView, StatefulFileList};

verus! {

/// `crossterm::event::MediaKeyCode`, carried inside a `KeyCode` and never
/// looked into.
#[verifier::external_type_specification]
#[verifier::external_body]
pub struct ExMediaKeyCode(MediaKeyCode);

/// `crossterm::event::ModifierKeyCode`, carried inside a `KeyCode` and never
/// looked into.
#[verifier::external_type_specification]
#[verifier::external_body]
pub struct ExModifierKeyCode(ModifierKeyCode);

/// `crossterm::event::KeyCode` with its variants as crossterm declares them,
/// so that the dispatch can tell `Char` and `Enter` from the rest.
#[verifier::external_type_specification]
pub struct ExKeyCode(KeyCode);

/// What a connected peer is doing.
#[derive(Debug, Clone, Copy, PartialEq, Eq, Structural)]
pub enum ClientStatus {
    Idle,
    Downloading,
    Disconnected,
}

/// Which side of an exchange this session is on. `Unset` is the state before
/// configuration and shows no content.
#[derive(Debug, PartialEq, Eq, Structural)]
pub enum ConnectionType {
    Connect,
    Host,
    Unset,
}

/// An IPv4 address as its four octets, most significant first.
#[derive(Debug, Clone, Copy, PartialEq, Eq, Structural)]
pub struct Ipv4Addr {
    pub a: u8,
    pub b: u8,
    pub c: u8,
    pub d: u8,
}

impl ClientStatus {
    /// The name of the status as the peer table prints it.
    pub open spec fn spec_name(self) -> Seq<char> {
        match self {
            ClientStatus::Idle => "Idle"@,
            ClientStatus::Downloading => "Downloading"@,
            ClientStatus::Disconnected => "Disconnected"@,
        }
    }

    /// The name of the status as text.
    pub fn name(&self) -> (s: &'static str)
        ensures
            s@ == self.spec_name(),
    {
        match self {
            ClientStatus::Idle => "Idle",
            ClientStatus::Downloading => "Downloading",
            ClientStatus::Disconnected => "Disconnected",
        }
    }
}

impl ConnectionType {
    /// The name of the mode.
    pub open spec fn spec_name(self) -> Seq<char> {
        match self {
            ConnectionType::Connect => "Connect"@,
            ConnectionType::Host => "Host"@,
            ConnectionType::Unset => "Unset"@,
        }
    }

    /// The name of the mode as text.
    pub fn name(&self) -> (s: &'static str)
        ensures
            s@ == self.spec_name(),
    {
        match self {
            ConnectionType::Connect => "Connect",
            ConnectionType::Host => "Host",
            ConnectionType::Unset => "Unset",
        }
    }
}

impl Ipv4Addr {
    /// The address `a.b.c.d`.
    pub fn new(a: u8, b: u8, c: u8, d: u8) -> (ip: Ipv4Addr)
        ensures
            ip == (Ipv4Addr { a, b, c, d }),
    {
        Ipv4Addr { a, b, c, d }
    }
}

/// A peer as contracts see it.
pub struct ClientView {
    pub ip: Ipv4Addr,
    pub status: ClientStatus,
}

/// A remote party that has joined a hosted session.
pub struct Client {
    ip: Ipv4Addr,
    status: ClientStatus,
}

impl View for Client {
    type V = ClientView;

    closed spec fn view(&self) -> ClientView {
        ClientView { ip: self.ip, status: self.status }
    }
}

impl Client {
    /// A peer at `ip` in the given state.
    pub fn new(ip: Ipv4Addr, status: ClientStatus) -> (client: Client)
        ensures
            client@ == (ClientView { ip, status }),
    {
        Client { ip, status }
    }

    pub fn ip(&self) -> (ip: Ipv4Addr)
        ensures
            ip == self@.ip,
    {
        self.ip
    }

    pub fn status(&self) -> (status: ClientStatus)
        ensures
            status == self@.status,
    {
        self.status
    }
}

/// The host's identity as contracts see it.
pub struct HostInfoView {
    pub ip: Ipv4Addr,
    pub password: Seq<char>,
}

/// Address and password of the hosting side. Shown, never checked.
pub struct HostInfo {
    ip: Ipv4Addr,
    password: String,
}

impl View for HostInfo {
    type V = HostInfoView;

    closed spec fn view(&self) -> HostInfoView {
        HostInfoView { ip: self.ip, password: self.password@ }
    }
}

impl HostInfo {
    /// The identity of a host at `ip` that gives out `password`.
    pub fn new(ip: Ipv4Addr, password: String) -> (info: HostInfo)
        ensures
            info@ == (HostInfoView { ip, password: password@ }),
    {
        HostInfo { ip, password }
    }

    pub fn ip(&self) -> (ip: Ipv4Addr)
        ensures
            ip == self@.ip,
    {
        self.ip
    }

    pub fn password(&self) -> (password: &str)
        ensures
            password@ == self@.password,
    {
        self.password.as_str()
    }
}

/// A file entry as contracts see it. `claimed` says whether the entry has
/// been picked for download.
pub struct FileView {
    pub name: Seq<char>,
    pub size: u64,
    pub claimed: bool,
}

/// A file on offer: its name, its size in bytes, and whether it has been
/// picked for download.
#[derive(Debug)]
pub struct File {
    name: String,
    size: u64,
    is_selected: bool,
}

impl View for File {
    type V = FileView;

    closed spec fn view(&self) -> FileView {
        FileView { name: self.name@, size: self.size, claimed: self.is_selected }
    }
}

impl Clone for File {
    fn clone(&self) -> (copy: File)
        ensures
            copy@ == self@,
    {
        File { name: self.name.clone(), size: self.size, is_selected: self.is_selected }
    }
}

impl File {
    /// A file that nobody has picked yet.
    pub fn new(name: String, size: u64) -> (file: File)
        ensures
            file@ == (FileView { name: name@, size, claimed: false }),
    {
        File { name, size, is_selected: false }
    }

    pub fn name(&self) -> (name: &str)
        ensures
            name@ == self@.name,
    {
        self.name.as_str()
    }

    pub fn size(&self) -> (size: u64)
        ensures
            size == self@.size,
    {
        self.size
    }

    pub fn is_selected(&self) -> (claimed: bool)
        ensures
            claimed == self@.claimed,
    {
        self.is_selected
    }

    /// Marks the file as picked. Once set the mark stays.
    pub(crate) fn mark_selected(&mut self)
        ensures
            final(self)@ == (FileView { claimed: true, ..old(self)@ }),
    {
        self.is_selected = true;
    }
}

/// The views of a sequence of files, in order.
pub open spec fn file_views(files: Seq<File>) -> Seq<FileView> {
    files.map_values(|f: File| f@)
}

/// The views of a sequence of peers, in order.
pub open spec fn client_views(clients: Seq<Client>) -> Seq<ClientView> {
    clients.map_values(|c: Client| c@)
}

/// A session as contracts see it.
pub struct AppView {
    pub title: Seq<char>,
    pub should_quit: bool,
    pub connection_type: ConnectionType,
    pub connected_clients: Seq<ClientView>,
    pub host_info: HostInfoView,
    pub available_files: ListView,
    pub downloading_files: Seq<FileView>,
    pub finished_files: Seq<FileView>,
}

impl AppView {
    /// The session as it starts out: running, without peers, with `files`
    /// on offer and nothing in download or done.
    pub open spec fn initial(
        title: Seq<char>,
        connection_type: ConnectionType,
        host_info: HostInfoView,
        files: Seq<FileView>,
    ) -> AppView {
        AppView {
            title,
            should_quit: false,
            connection_type,
            connected_clients: Seq::empty(),
            host_info,
            available_files: ListView::initial(files),
            downloading_files: Seq::empty(),
            finished_files: Seq::empty(),
        }
    }

    /// The session after one key press.
    ///
    /// `q` asks to quit, `j` and `k` move the cursor forward and back, and
    /// Enter claims the entry under the cursor: a first claim puts a copy of
    /// the entry behind the downloads. Every other key, and Enter without a
    /// cursor or on an entry already claimed, leaves the session as it is.
    pub open spec fn dispatch(self, key: KeyCode) -> AppView {
        match key {
            KeyCode::Char(c) => if c == 'q' {
                AppView { should_quit: true, ..self }
            } else if c == 'j' {
                AppView { available_files: self.available_files.next(), ..self }
            } else if c == 'k' {
                AppView { available_files: self.available_files.prev(), ..self }
            } else {
                self
            },
            KeyCode::Enter => match self.available_files.cursor {
                Some(i) => match self.available_files.claim_outcome(i) {
                    Ok(Some(file)) => AppView {
                        available_files: self.available_files.claim(i),
                        downloading_files: self.downloading_files.push(file),
                        ..self
                    },
                    _ => self,
                },
                None => self,
            },
            _ => self,
        }
    }

    /// The session after the key presses `keys`, one after the other.
    pub open spec fn dispatch_all(self, keys: Seq<KeyCode>) -> AppView
        decreases keys.len(),
    {
        if keys.len() == 0 {
            self
        } else {
            self.dispatch_all(keys.drop_last()).dispatch(keys.last())
        }
    }
}

/// The whole state of one run: the mode, the peers of a hosted session, the
/// host's identity, and the files on offer, in download and done.
pub struct App<'a> {
    pub title: &'a str,
    pub should_quit: bool,
    pub connection_type: ConnectionType,
    pub connected_clients: Vec<Client>,
    pub host_info: HostInfo,
    pub available_files: StatefulFileList,
    pub downloading_files: Vec<File>,
    pub finished_files: Vec<File>,
}

impl<'a> View for App<'a> {
    type V = AppView;

    open spec fn view(&self) -> AppView {
        AppView {
            title: self.title@,
            should_quit: self.should_quit,
            connection_type: self.connection_type,
            connected_clients: client_views(self.connected_clients@),
            host_info: self.host_info@,
            available_files: self.available_files@,
            downloading_files: file_views(self.downloading_files@),
            finished_files: file_views(self.finished_files@),
        }
    }
}

impl<'a> App<'a> {
    /// A running session that offers `shared_files`, with no peers and
    /// nothing in download or done.
    pub fn new(
        title: &'a str,
        connection_type: ConnectionType,
        host_info: HostInfo,
        shared_files: Vec<File>,
    ) -> (app: Self)
        ensures
            app@ == AppView::initial(
                title@,
                connection_type,
                host_info@,
                file_views(shared_files@),
            ),
            app@.available_files.wf(),
    {
        let app = App {
            title,
            should_quit: false,
            connection_type,
            connected_clients: Vec::new(),
            host_info,
            available_files: StatefulFileList::new(shared_files),
            downloading_files: Vec::new(),
            finished_files: Vec::new(),
        };
        assert(client_views(app.connected_clients@) =~= Seq::empty());
        assert(file_views(app.downloading_files@) =~= Seq::empty());
        assert(file_views(app.finished_files@) =~= Seq::empty());
        app
    }

    /// Applies one key press to the session.
    pub fn match_keycode(&mut self, keycode: KeyCode)
        ensures
            final(self)@ == old(self)@.dispatch(keycode),
            old(self)@.available_files.wf() ==> final(self)@.available_files.wf(),
            old(self).should_quit ==> final(self).should_quit,
    {
        match keycode {
            KeyCode::Char(c) => match c {
                'q' => self.should_quit = true,
                'j' => self.available_files.next(),
                'k' => self.available_files.prev(),
                _ => {},
            },
            KeyCode::Enter => match self.available_files.selected() {
                Some(i) => match self.available_files.get_selected(i) {
                    Ok(Some(file)) => {
                        self.downloading_files.push(file);
                        assert(file_views(self.downloading_files@) =~= file_views(
                            old(self).downloading_files@,
                        ).push(file@));
                    },
                    _ => {
                        assert(self.available_files@.items =~= old(self).available_files@.items);
                    },
                },
                None => {},
            },
            _ => {},
        }
    }

    /// The periodic maintenance hook, called once per tick interval. The
    /// session has nothing to maintain yet, so it stays as it is.
    pub fn on_tick(&mut self)
        ensures
            final(self)@ == old(self)@,
    {
    }
}

/// Once `q` has been pressed the session asks to quit, and no key press
/// after it takes that back.
pub proof fn lemma_quit_is_permanent(app: AppView, keys: Seq<KeyCode>)
    ensures
        app.dispatch(KeyCode::Char('q')).should_quit,
        app.should_quit ==> app.dispatch_all(keys).should_quit,
        app.dispatch(KeyCode::Char('q')).dispatch_all(keys).should_quit,
    decreases keys.len(),
{
    if keys.len() > 0 {
        lemma_quit_is_permanent(app, keys.drop_last());
    }
}

/// A key press touches nothing but the wish to quit, the files on offer and
/// the downloads: title, mode, peers, host and finished files stay as they
/// are, no file on offer comes or goes, and no download is taken back.
pub proof fn lemma_dispatch_frame(app: AppView, key: KeyCode)
    ensures
        app.dispatch(key).title == app.title,
        app.dispatch(key).connection_type == app.connection_type,
        app.dispatch(key).connected_clients == app.connected_clients,
        app.dispatch(key).host_info == app.host_info,
        app.dispatch(key).finished_files == app.finished_files,
        app.dispatch(key).available_files.items.len() == app.available_files.items.len(),
        app.downloading_files.is_prefix_of(app.dispatch(key).downloading_files),
{
}

/// Key presses keep the cursor of the files on offer inside the list, so
/// Enter never claims an index that names no entry.
pub proof fn lemma_dispatch_keeps_cursor_valid(app: AppView, key: KeyCode)
    requires
        app.available_files.wf(),
    ensures
        app.dispatch(key).available_files.wf(),
        app.available_files.cursor matches Some(i) ==> app.available_files.claim_outcome(i) is Ok,
{
}

} // verus!
