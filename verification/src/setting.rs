use vstd::prelude::*;
use vstd::string::StringExecFns;

verus! {

/// The port the server listens on unless the user chose another.
pub const DEFAULT_PORT: u16 = 12345;

/// What the user can configure.
#[derive(Debug)]
pub struct Settings {
    /// Server port
    pub port: u16,
    /// Folder path for saving uploaded file
    pub storage_folder: String,
}

/// `Settings` as a value of texts, sequences and numbers.
pub struct SettingsView {
    pub port: u16,
    pub storage_folder: Seq<char>,
}

impl View for Settings {
    type V = SettingsView;

    open spec fn view(&self) -> SettingsView {
        SettingsView { port: self.port, storage_folder: self.storage_folder@ }
    }
}

/// The folder for uploads that is used by default: `Uploads` below the
/// user's download folder.
pub open spec fn default_storage_folder(download_dir: Seq<char>) -> Seq<char> {
    download_dir + "/Uploads"@
}

impl Settings {
    /// The settings of a fresh installation, given the user's download
    /// folder.
    pub fn new(download_dir: &String) -> (settings: Settings)
        ensures
            settings@ == (SettingsView {
                port: DEFAULT_PORT,
                storage_folder: default_storage_folder(download_dir@),
            }),
    {
        let mut storage_folder = download_dir.clone();
        storage_folder.append("/Uploads");
        Settings { port: DEFAULT_PORT, storage_folder }
    }

    /// A copy of the settings.
    pub fn clone(&self) -> (copy: Settings)
        ensures
            copy@ == self@,
    {
        Settings { port: self.port, storage_folder: self.storage_folder.clone() }
    }

    /// Replaces both settings.
    pub fn update(&mut self, port: u16, storage_folder: String)
        ensures
            final(self)@ == (SettingsView { port, storage_folder: storage_folder@ }),
    {
        self.port = port;
        self.storage_folder = storage_folder;
    }
}

} // verus!
