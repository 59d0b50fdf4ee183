//! The configuration in use: the settings of the configuration file, and
//! the directories that follow from them.

use vstd::prelude::*;

use crate::config::app_config::{AppConfig, AppConfigView};
use crate::types::text_of;

verus! {

/// Whether a path begins with a tilde, and so names a home directory.
pub open spec fn begins_with_tilde(path: Seq<char>) -> bool {
    path.len() > 0 && path[0] == '~'
}

/// Whether a path names the home directory of a user whose name holds a
/// NUL character: it begins with a tilde, and a NUL stands in it before its
/// first separator. No user has such a name.
pub open spec fn names_no_user(path: Seq<char>) -> bool {
    begins_with_tilde(path) && exists|i: int|
        0 <= i < path.len() && #[trigger] path[i] == '\0' && forall|j: int|
            0 <= j < i ==> #[trigger] path[j] != '/'
}

#[verifier::external_type_specification]
#[verifier::external_body]
pub struct ExHomeDirError(home_dir::Error);

/// What the `home-dir` crate makes of a path that names no home directory:
/// the path put together again from its components. That depends on the
/// path alone.
pub uninterp spec fn rebuilt_path(path: Seq<char>) -> Seq<char>;

/// `HomeDirExt::expand_home` of the `home-dir` crate: the path with a
/// leading `~` or `~user` replaced by that user's home directory. Which
/// directory that is depends on the environment and on the user database,
/// so nothing is claimed of the path that comes back for a path with a
/// leading tilde, nor that one comes back. A path without a leading tilde
/// names no home directory: nothing is looked up for it, the call cannot
/// fail, and what comes back is the path put together again from its
/// components, which has the name `rebuilt_path`. A home directory that is
/// not valid UTF-8 comes back with replacement characters. For `~user` the
/// crate looks the user up by name, and that lookup does not return for a
/// name that holds a NUL character: such a path must not be handed in.
#[verifier::external_body]
fn expand_home(path: &str) -> (expanded: Result<String, home_dir::Error>)
    requires
        !names_no_user(path@),
    ensures
        !begins_with_tilde(path@) ==> expanded is Ok && expanded->Ok_0@ == rebuilt_path(path@),
{
    home_dir::HomeDirExt::expand_home(&path).map(|p| p.to_string_lossy().into_owned())
}

/// A path with a file or directory name added to it, as `Path::join` adds a
/// relative name: after a separator, unless the path is empty or ends in
/// one.
pub open spec fn joined(base: Seq<char>, name: Seq<char>) -> Seq<char> {
    if base.len() == 0 || base.last() == '/' {
        base + name
    } else {
        base + "/"@ + name
    }
}

/// Adds a file or directory name to a path.
pub fn join_path(base: &str, name: &str) -> (path: String)
    ensures
        path@ == joined(base@, name@),
{
    let n = base.unicode_len();
    if n == 0 || base.get_char(n - 1) == '/' {
        base.to_owned().concat(name)
    } else {
        base.to_owned().concat("/").concat(name)
    }
}

/// Why a configuration cannot be used.
#[derive(Debug, PartialEq, Eq)]
pub enum ConfigError {
    /// The home directory that a path names could not be found.
    HomeNotFound { path: String },
    /// The target directory does not exist.
    TargetDirMissing { path: String },
    /// The temporary directory does not exist.
    TmpDirMissing { path: String },
    /// The data directory does not exist.
    DataDirMissing { path: String },
    /// No bookmark file is configured.
    NoBookmarkFiles,
    /// A configured bookmark file does not exist.
    BookmarkFileMissing,
}

/// An error as plain data.
pub enum ConfigErrorView {
    HomeNotFound { path: Seq<char> },
    TargetDirMissing { path: Seq<char> },
    TmpDirMissing { path: Seq<char> },
    DataDirMissing { path: Seq<char> },
    NoBookmarkFiles,
    BookmarkFileMissing,
}

impl View for ConfigError {
    type V = ConfigErrorView;

    open spec fn view(&self) -> ConfigErrorView {
        match *self {
            ConfigError::HomeNotFound { path } => ConfigErrorView::HomeNotFound { path: path@ },
            ConfigError::TargetDirMissing { path } => ConfigErrorView::TargetDirMissing {
                path: path@,
            },
            ConfigError::TmpDirMissing { path } => ConfigErrorView::TmpDirMissing { path: path@ },
            ConfigError::DataDirMissing { path } => ConfigErrorView::DataDirMissing { path: path@ },
            ConfigError::NoBookmarkFiles => ConfigErrorView::NoBookmarkFiles,
            ConfigError::BookmarkFileMissing => ConfigErrorView::BookmarkFileMissing,
        }
    }
}

/// The words that close every message: where the configuration was read.
pub open spec fn read_from(config_file: Seq<char>) -> Seq<char> {
    " (config file path: \""@ + config_file + "\")"@
}

/// The message for a directory that does not exist.
pub open spec fn missing_dir(setting: Seq<char>, path: Seq<char>, config_file: Seq<char>) -> Seq<
    char,
> {
    "Given "@ + setting + " (\""@ + path + "\") doesn't exist"@ + read_from(config_file)
}

impl ConfigErrorView {
    /// The message that tells the user what is wrong.
    pub open spec fn message(self, config_file: Seq<char>) -> Seq<char> {
        match self {
            ConfigErrorView::HomeNotFound { path } => "Cannot find the home directory of \""@ + path
                + "\""@ + read_from(config_file),
            ConfigErrorView::TargetDirMissing { path } => missing_dir(
                "target_dir"@,
                path,
                config_file,
            ),
            ConfigErrorView::TmpDirMissing { path } => missing_dir("tmp_dir"@, path, config_file),
            ConfigErrorView::DataDirMissing { path } => missing_dir("data_dir"@, path, config_file),
            ConfigErrorView::NoBookmarkFiles => "Given bookmark_files list is empty"@ + read_from(
                config_file,
            ),
            ConfigErrorView::BookmarkFileMissing => "Some of the bookmark_files doesn't exist"@
                + read_from(config_file),
        }
    }
}

fn read_from_text(config_file: &str) -> (text: String)
    ensures
        text@ == read_from(config_file@),
{
    " (config file path: \"".to_owned().concat(config_file).concat("\")")
}

fn missing_dir_text(setting: &str, path: &str, config_file: &str) -> (text: String)
    ensures
        text@ == missing_dir(setting@, path@, config_file@),
{
    let tail = read_from_text(config_file);
    "Given ".to_owned().concat(setting).concat(" (\"").concat(path).concat("\") doesn't exist").concat(
        tail.as_str(),
    )
}

impl ConfigError {
    /// Writes the message that tells the user what is wrong.
    pub fn message(&self, config_file: &str) -> (text: String)
        ensures
            text@ == self@.message(config_file@),
    {
        match self {
            ConfigError::HomeNotFound { path } => {
                let tail = read_from_text(config_file);
                "Cannot find the home directory of \"".to_owned().concat(path.as_str()).concat(
                    "\"",
                ).concat(tail.as_str())
            },
            ConfigError::TargetDirMissing { path } => missing_dir_text(
                "target_dir",
                path.as_str(),
                config_file,
            ),
            ConfigError::TmpDirMissing { path } => missing_dir_text(
                "tmp_dir",
                path.as_str(),
                config_file,
            ),
            ConfigError::DataDirMissing { path } => missing_dir_text(
                "data_dir",
                path.as_str(),
                config_file,
            ),
            ConfigError::NoBookmarkFiles => {
                let tail = read_from_text(config_file);
                "Given bookmark_files list is empty".to_owned().concat(tail.as_str())
            },
            ConfigError::BookmarkFileMissing => {
                let tail = read_from_text(config_file);
                "Some of the bookmark_files doesn't exist".to_owned().concat(tail.as_str())
            },
        }
    }
}

/// A path as it was found on disk.
#[derive(Debug)]
pub struct ProbedPath {
    pub path: String,
    pub exists: bool,
}

/// The paths of a configuration as they were found on disk.
#[derive(Debug)]
pub struct ProbedPaths {
    pub target_dir: ProbedPath,
    pub tmp_dir: ProbedPath,
    pub data_dir: ProbedPath,
    pub bookmark_files: Vec<ProbedPath>,
}

/// Whether every path of the list exists.
pub open spec fn all_exist(paths: Seq<ProbedPath>) -> bool {
    forall|i: int| 0 <= i < paths.len() ==> (#[trigger] paths[i]).exists
}

/// What is wrong with the paths of a configuration, if anything: the first
/// of the target, temporary and data directories that does not exist; else
/// that no bookmark file is configured; else that one of them does not
/// exist.
pub open spec fn validated(probed: ProbedPaths) -> Result<(), ConfigErrorView> {
    if !probed.target_dir.exists {
        Err(ConfigErrorView::TargetDirMissing { path: probed.target_dir.path@ })
    } else if !probed.tmp_dir.exists {
        Err(ConfigErrorView::TmpDirMissing { path: probed.tmp_dir.path@ })
    } else if !probed.data_dir.exists {
        Err(ConfigErrorView::DataDirMissing { path: probed.data_dir.path@ })
    } else if probed.bookmark_files@.len() == 0 {
        Err(ConfigErrorView::NoBookmarkFiles)
    } else if !all_exist(probed.bookmark_files@) {
        Err(ConfigErrorView::BookmarkFileMissing)
    } else {
        Ok(())
    }
}

/// A result with its error as plain data.
pub open spec fn checked<T>(result: Result<T, ConfigError>) -> Result<T, ConfigErrorView> {
    match result {
        Ok(value) => Ok(value),
        Err(e) => Err(e@),
    }
}

fn every_path_exists(paths: &Vec<ProbedPath>) -> (all: bool)
    ensures
        all == all_exist(paths@),
{
    let mut i: usize = 0;
    while i < paths.len()
        invariant
            i <= paths.len(),
            forall|k: int| 0 <= k < i ==> (#[trigger] paths@[k]).exists,
        decreases paths.len() - i,
    {
        if !paths[i].exists {
            return false;
        }
        i += 1;
    }
    true
}

/// The configuration in use.
#[derive(Debug)]
pub struct Config {
    config_file: String,
    app_config: AppConfig,
    data_home: Option<String>,
}

/// The configuration as plain data.
pub struct ConfigView {
    /// The file that the settings were read from.
    pub config_file: Seq<char>,
    /// The settings.
    pub app_config: AppConfigView,
    /// The directory under which programs keep their data, where the
    /// environment names one.
    pub data_home: Option<Seq<char>>,
}

impl View for Config {
    type V = ConfigView;

    closed spec fn view(&self) -> ConfigView {
        ConfigView {
            config_file: self.config_file@,
            app_config: self.app_config@,
            data_home: text_of(self.data_home),
        }
    }
}

/// The directory of the program under the directory where programs keep
/// their data or their settings.
pub open spec fn program_dir(home: Seq<char>) -> Seq<char> {
    joined(home, "yt-mirror"@)
}

/// The configuration file that is used: the given one, or else
/// `config.toml` in the program's directory under the directory for
/// settings, which is `~/.config` unless the environment names another.
pub open spec fn config_file_for(config_path: Option<Seq<char>>, config_home: Option<Seq<char>>) -> Seq<
    char,
> {
    match config_path {
        Some(path) => path,
        None => joined(
            program_dir(
                match config_home {
                    Some(home) => home,
                    None => "~/.config"@,
                },
            ),
            "config.toml"@,
        ),
    }
}

impl ConfigView {
    /// The data directory where the settings name none: the program's
    /// directory under the directory for data, which is `~/.local/share`
    /// unless the environment names another.
    pub open spec fn default_data_dir(self) -> Seq<char> {
        program_dir(
            match self.data_home {
                Some(home) => home,
                None => "~/.local/share"@,
            },
        )
    }
}

impl Config {
    /// Tells which configuration file is used.
    pub fn config_file_path(config_path: Option<String>, config_home: Option<String>) -> (path:
        String)
        ensures
            path@ == config_file_for(text_of(config_path), text_of(config_home)),
    {
        match config_path {
            Some(path) => path,
            None => {
                let home = match config_home {
                    Some(home) => home,
                    None => "~/.config".to_owned(),
                };
                let dir = join_path(home.as_str(), "yt-mirror");
                join_path(dir.as_str(), "config.toml")
            },
        }
    }

    /// The configuration for the settings that were read from a file.
    pub fn new(config_file: String, app_config: AppConfig, data_home: Option<String>) -> (config:
        Config)
        ensures
            config@ == (ConfigView {
                config_file: config_file@,
                app_config: app_config@,
                data_home: text_of(data_home),
            }),
    {
        Config { config_file, app_config, data_home }
    }

    /// The file that the settings were read from.
    pub fn config_file(&self) -> (path: &String)
        ensures
            path@ == self@.config_file,
    {
        &self.config_file
    }

    /// What a path of the settings comes to, given what the expansion of its
    /// home directory gave: the expanded path, or that the home directory
    /// was not found where the expansion gave none.
    pub fn expanded_path(path: &str, expanded: Option<String>) -> (outcome: Result<
        String,
        ConfigError,
    >)
        ensures
            match expanded {
                Some(found) => outcome == Ok::<String, ConfigError>(found),
                None => outcome is Err && outcome->Err_0@ == (ConfigErrorView::HomeNotFound {
                    path: path@,
                }),
            },
    {
        match expanded {
            Some(found) => Ok(found),
            None => Err(ConfigError::HomeNotFound { path: path.to_owned() }),
        }
    }

    /// Tells whether a path names the home directory of a user whose name
    /// holds a NUL character.
    pub fn names_impossible_user(path: &str) -> (impossible: bool)
        ensures
            impossible == names_no_user(path@),
    {
        let n = path.unicode_len();
        if n == 0 || path.get_char(0) != '~' {
            return false;
        }
        let mut i: usize = 1;
        while i < n
            invariant
                1 <= i <= n,
                n == path@.len(),
                path@[0] == '~',
                forall|k: int| 0 <= k < i ==> path@[k] != '\0' && path@[k] != '/',
            decreases n - i,
        {
            let c = path.get_char(i);
            if c == '\0' {
                return true;
            }
            if c == '/' {
                return false;
            }
            i += 1;
        }
        false
    }

    /// Expands the home directory in a path of the settings. A path that
    /// names no home directory comes back put together again from its
    /// components. A path that names the home directory of a user whose
    /// name holds a NUL character names no user: its home directory is not
    /// found, and nothing is looked up. For any other path, whatever the
    /// expansion gave comes back, or that the home directory was not found.
    fn expand(path: &str) -> (expanded: Result<String, ConfigError>)
        ensures
            !begins_with_tilde(path@) ==> expanded is Ok && expanded->Ok_0@ == rebuilt_path(path@),
            names_no_user(path@) ==> expanded is Err,
            expanded matches Err(e) ==> e@ == (ConfigErrorView::HomeNotFound { path: path@ }),
    {
        if Config::names_impossible_user(path) {
            return Config::expanded_path(path, None);
        }
        match expand_home(path) {
            Ok(found) => Config::expanded_path(path, Some(found)),
            Err(_) => Config::expanded_path(path, None),
        }
    }

    /// The file in a data directory that holds the job table.
    pub fn process_path_in(data_dir: &str) -> (path: String)
        ensures
            path@ == joined(data_dir@, "processes.sqlite"@),
    {
        join_path(data_dir, "processes.sqlite")
    }

    /// The file that holds the job table: `processes.sqlite` in the data
    /// directory. It fails where the data directory cannot be told.
    pub fn get_process_path(&self) -> (path: Result<String, ConfigError>)
        ensures
            self@.app_config.data_dir is None ==> path is Ok && path->Ok_0@ == joined(
                self@.default_data_dir(),
                "processes.sqlite"@,
            ),
            self@.app_config.data_dir matches Some(dir) ==> {
                &&& !begins_with_tilde(dir) ==> path is Ok && path->Ok_0@ == joined(
                    rebuilt_path(dir),
                    "processes.sqlite"@,
                )
                &&& names_no_user(dir) ==> path is Err
                &&& path matches Err(e) ==> e@ == (ConfigErrorView::HomeNotFound { path: dir })
            },
            path matches Ok(file) ==> exists|dir: Seq<char>|
                file@ == #[trigger] joined(dir, "processes.sqlite"@),
    {
        match self.get_data_dir() {
            Ok(dir) => {
                let file = Config::process_path_in(dir.as_str());
                assert(file@ == joined(dir@, "processes.sqlite"@));
                Ok(file)
            },
            Err(e) => Err(e),
        }
    }

    /// The directory in which downloads are prepared: the configured one
    /// with its home directory expanded, or `/tmp`. Where the configured
    /// directory names no home directory, it comes back put together again
    /// from its components.
    pub fn get_tmp_dir(&self) -> (dir: Result<String, ConfigError>)
        ensures
            self@.app_config.tmp_dir is None ==> dir is Ok && dir->Ok_0@ == "/tmp"@,
            self@.app_config.tmp_dir matches Some(tmp) ==> {
                &&& !begins_with_tilde(tmp) ==> dir is Ok && dir->Ok_0@ == rebuilt_path(tmp)
                &&& names_no_user(tmp) ==> dir is Err
                &&& dir matches Err(e) ==> e@ == (ConfigErrorView::HomeNotFound { path: tmp })
            },
    {
        match &self.app_config.tmp_dir {
            Some(tmp) => Config::expand(tmp.as_str()),
            None => Ok("/tmp".to_owned()),
        }
    }

    /// The configured bookmark files, each with its home directory
    /// expanded, in their order. A file that names no home directory comes
    /// back put together again from its components. Where a home directory
    /// is not found, the first such file is the error's.
    pub fn get_bookmark_files(&self) -> (files: Result<Vec<String>, ConfigError>)
        ensures
            match files {
                Ok(expanded) => {
                    &&& expanded@.len() == self@.app_config.bookmark_files.len()
                    &&& forall|i: int|
                        0 <= i < expanded@.len() ==> {
                            &&& !begins_with_tilde(self@.app_config.bookmark_files[i])
                                ==> (#[trigger] expanded@[i])@ == rebuilt_path(
                                self@.app_config.bookmark_files[i],
                            )
                            &&& !names_no_user(self@.app_config.bookmark_files[i])
                        }
                },
                Err(e) => exists|i: int|
                    0 <= i < self@.app_config.bookmark_files.len() && begins_with_tilde(
                        #[trigger] self@.app_config.bookmark_files[i],
                    ) && e@ == (ConfigErrorView::HomeNotFound {
                        path: self@.app_config.bookmark_files[i],
                    }),
            },
    {
        let ghost configured = self@.app_config.bookmark_files;
        let mut files: Vec<String> = Vec::new();
        let mut i: usize = 0;
        while i < self.app_config.bookmark_files.len()
            invariant
                i <= self.app_config.bookmark_files.len(),
                configured == self@.app_config.bookmark_files,
                configured.len() == self.app_config.bookmark_files.len(),
                files@.len() == i,
                forall|k: int|
                    0 <= k < i && !begins_with_tilde(configured[k]) ==> (#[trigger] files@[k])@
                        == rebuilt_path(configured[k]),
                forall|k: int| 0 <= k < i ==> !names_no_user(#[trigger] configured[k]),
            decreases self.app_config.bookmark_files.len() - i,
        {
            assert(configured[i as int] == self.app_config.bookmark_files@[i as int]@);
            let ghost before = files@;
            match Config::expand(self.app_config.bookmark_files[i].as_str()) {
                Ok(expanded) => {
                    files.push(expanded);
                    assert forall|k: int|
                        0 <= k < i + 1 && !begins_with_tilde(configured[k]) implies (
                    #[trigger] files@[k])@ == rebuilt_path(configured[k]) by {
                        if k < i {
                            assert(files@[k] == before[k]);
                        }
                    }
                },
                Err(e) => {
                    return Err(e);
                },
            }
            i += 1;
        }
        Ok(files)
    }

    /// The directory that downloads end up in: the configured one with its
    /// home directory expanded. Where the configured directory names no
    /// home directory, it comes back put together again from its
    /// components.
    pub fn get_target_dir(&self) -> (dir: Result<String, ConfigError>)
        ensures
            !begins_with_tilde(self@.app_config.target_dir) ==> dir is Ok && dir->Ok_0@
                == rebuilt_path(self@.app_config.target_dir),
            names_no_user(self@.app_config.target_dir) ==> dir is Err,
            dir matches Err(e) ==> e@ == (ConfigErrorView::HomeNotFound {
                path: self@.app_config.target_dir,
            }),
    {
        Config::expand(self.app_config.target_dir.as_str())
    }

    /// The directory that holds the job table: the configured one with its
    /// home directory expanded, or the program's directory under the
    /// directory for data. Where the configured directory names no home
    /// directory, it comes back put together again from its components.
    pub fn get_data_dir(&self) -> (dir: Result<String, ConfigError>)
        ensures
            self@.app_config.data_dir is None ==> dir is Ok && dir->Ok_0@
                == self@.default_data_dir(),
            self@.app_config.data_dir matches Some(data) ==> {
                &&& !begins_with_tilde(data) ==> dir is Ok && dir->Ok_0@ == rebuilt_path(data)
                &&& names_no_user(data) ==> dir is Err
                &&& dir matches Err(e) ==> e@ == (ConfigErrorView::HomeNotFound { path: data })
            },
    {
        match &self.app_config.data_dir {
            Some(data) => Config::expand(data.as_str()),
            None => {
                let home = match &self.data_home {
                    Some(home) => home.clone(),
                    None => "~/.local/share".to_owned(),
                };
                Ok(join_path(home.as_str(), "yt-mirror"))
            },
        }
    }

    /// Checks the paths of the configuration as they were found on disk.
    pub fn validate(&self, probed: &ProbedPaths) -> (outcome: Result<(), ConfigError>)
        ensures
            checked(outcome) == validated(*probed),
    {
        if !probed.target_dir.exists {
            return Err(ConfigError::TargetDirMissing { path: probed.target_dir.path.clone() });
        }
        if !probed.tmp_dir.exists {
            return Err(ConfigError::TmpDirMissing { path: probed.tmp_dir.path.clone() });
        }
        if !probed.data_dir.exists {
            return Err(ConfigError::DataDirMissing { path: probed.data_dir.path.clone() });
        }
        if probed.bookmark_files.len() == 0 {
            return Err(ConfigError::NoBookmarkFiles);
        }
        if !every_path_exists(&probed.bookmark_files) {
            return Err(ConfigError::BookmarkFileMissing);
        }
        Ok(())
    }
}

} // verus!
