//! What the configuration file holds.

use vstd::prelude::*;

use crate::downloader::texts;
use crate::types::text_of;

verus! {

/// The settings as they stand in the configuration file.
#[derive(Debug, PartialEq, Eq)]
pub struct AppConfig {
    pub bookmark_files: Vec<String>,
    pub target_dir: String,
    pub tmp_dir: Option<String>,
    pub data_dir: Option<String>,
}

/// The settings as plain data.
pub struct AppConfigView {
    pub bookmark_files: Seq<Seq<char>>,
    pub target_dir: Seq<char>,
    pub tmp_dir: Option<Seq<char>>,
    pub data_dir: Option<Seq<char>>,
}

impl View for AppConfig {
    type V = AppConfigView;

    open spec fn view(&self) -> AppConfigView {
        AppConfigView {
            bookmark_files: texts(self.bookmark_files@),
            target_dir: self.target_dir@,
            tmp_dir: text_of(self.tmp_dir),
            data_dir: text_of(self.data_dir),
        }
    }
}

impl AppConfig {
    /// The settings that a new configuration file is written with: no
    /// bookmark file, an empty target directory, and the default temporary
    /// and data directories.
    pub fn new_default() -> (settings: AppConfig)
        ensures
            settings@ == (AppConfigView {
                bookmark_files: Seq::empty(),
                target_dir: Seq::empty(),
                tmp_dir: None,
                data_dir: None,
            }),
    {
        let settings = AppConfig {
            bookmark_files: Vec::new(),
            target_dir: String::new(),
            data_dir: None,
            tmp_dir: None,
        };
        assert(settings@.bookmark_files =~= Seq::empty());
        settings
    }
}

} // verus!
