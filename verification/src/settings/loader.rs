//! Loading layered configuration: list a directory, keep the
//! configuration files, add the environment's overwrites, and merge the
//! files' entries with the later ones winning.

use vstd::prelude::*;
use crate::settings::config::{dec_digits, dec_val, parse_bool, parse_u16, ApplicationConfig, Config, DatabaseConfig};
use crate::settings::directory::SettingsDirectory;
use crate::settings::environment::Environment;
use crate::settings::file_filter::{SettingsFileFilter, TomlSettingsFileFilter};
use crate::settings::reader::{DirectoryReader, StaticDirectoryReader};

verus! {

use vstd::string::StringExecFns;

/// Whether the environment-specific overwrite files take part in
/// loading.
#[derive(Debug, Clone, Copy, PartialEq, Eq, Structural)]
pub enum SettingsOverwrite {
    Enabled,
    Disabled,
}

/// The flattened entries of one parsed configuration file: dotted keys
/// and their values, in file order.
pub type SettingsEntries = Vec<(String, String)>;

/// The value the last entry for the key holds, if any.
pub open spec fn last_value(
    entries: Seq<(Seq<char>, Seq<char>)>,
    key: Seq<char>,
) -> Option<Seq<char>>
    decreases entries.len(),
{
    if entries.len() == 0 {
        None
    } else if entries.last().0 == key {
        Some(entries.last().1)
    } else {
        last_value(entries.drop_last(), key)
    }
}

/// The value the key takes once the files are merged in order, the later
/// files overwriting the earlier: the last entry of the last file that
/// holds the key.
pub open spec fn setting(
    files: Seq<Seq<(Seq<char>, Seq<char>)>>,
    key: Seq<char>,
) -> Option<Seq<char>>
    decreases files.len(),
{
    if files.len() == 0 {
        None
    } else {
        match last_value(files.last(), key) {
            Some(v) => Some(v),
            None => setting(files.drop_last(), key),
        }
    }
}

/// The scan for a key may skip a matchless suffix of one file.
proof fn lemma_last_value_skip(entries: Seq<(Seq<char>, Seq<char>)>, key: Seq<char>, i: int)
    requires
        0 <= i <= entries.len(),
        forall|j: int| i <= j < entries.len() ==> (#[trigger] entries[j]).0 != key,
    ensures
        last_value(entries, key) == last_value(entries.subrange(0, i), key),
    decreases entries.len() - i,
{
    if i == entries.len() {
        assert(entries.subrange(0, i) =~= entries);
    } else {
        assert(entries.drop_last() =~= entries.subrange(0, entries.len() - 1));
        lemma_last_value_skip(entries.subrange(0, entries.len() - 1), key, i);
        assert(entries.subrange(0, entries.len() - 1).subrange(0, i)
            =~= entries.subrange(0, i));
    }
}

/// The scan for a key may skip files whose entries never hold it.
proof fn lemma_setting_skip(files: Seq<Seq<(Seq<char>, Seq<char>)>>, key: Seq<char>, i: int)
    requires
        0 <= i <= files.len(),
        forall|j: int| i <= j < files.len()
            ==> last_value(#[trigger] files[j], key) is None,
    ensures
        setting(files, key) == setting(files.subrange(0, i), key),
    decreases files.len() - i,
{
    if i == files.len() {
        assert(files.subrange(0, i) =~= files);
    } else {
        assert(files.drop_last() =~= files.subrange(0, files.len() - 1));
        lemma_setting_skip(files.subrange(0, files.len() - 1), key, i);
        assert(files.subrange(0, files.len() - 1).subrange(0, i)
            =~= files.subrange(0, i));
    }
}

/// Finds the merged value of a key: the files are searched from the
/// last, and within a file its entries from the last.
fn lookup_setting(files: &Vec<SettingsEntries>, key: &String) -> (r: Option<String>)
    ensures
        match r {
            Some(v) => setting(files.deep_view(), key@) == Some(v@),
            None => setting(files.deep_view(), key@) is None,
        },
{
    let ghost fv = files.deep_view();
    let mut i: usize = files.len();
    while i > 0
        invariant
            fv == files.deep_view(),
            fv.len() == files@.len(),
            i <= files@.len(),
            forall|j: int| i <= j < files@.len()
                ==> last_value(#[trigger] fv[j], key@) is None,
        decreases i,
    {
        i = i - 1;
        let entries = &files[i];
        let ghost ev = entries.deep_view();
        proof {
            assert(ev == fv[i as int]);
        }
        let mut j: usize = entries.len();
        while j > 0
            invariant
                fv == files.deep_view(),
                fv.len() == files@.len(),
                i < files@.len(),
                ev == fv[i as int],
                forall|k: int| i < k < files@.len()
                    ==> last_value(#[trigger] fv[k], key@) is None,
                ev == entries.deep_view(),
                ev.len() == entries@.len(),
                j <= entries@.len(),
                forall|k: int| j <= k < entries@.len() ==> (#[trigger] ev[k]).0 != key@,
            decreases j,
        {
            j = j - 1;
            if entries[j].0 == *key {
                proof {
                    lemma_last_value_skip(ev, key@, j + 1);
                    assert(ev.subrange(0, j + 1).last() == ev[j as int]);
                    lemma_setting_skip(fv, key@, i + 1);
                    assert(fv.subrange(0, i + 1).last() == fv[i as int]);
                }
                return Some(entries[j].1.clone());
            }
            proof {
                assert(ev[j as int].0 == entries@[j as int].0@);
            }
        }
        proof {
            lemma_last_value_skip(ev, key@, 0);
            assert(ev.subrange(0, 0) =~= Seq::empty());
        }
    }
    proof {
        lemma_setting_skip(fv, key@, 0);
        assert(fv.subrange(0, 0) =~= Seq::empty());
    }
    None
}

/// Whether merged files hold everything a configuration needs: all
/// twelve keys present, both ports all digits within range, and the TLS
/// switch either "true" or "false".
pub open spec fn config_extractable(files: Seq<Seq<(Seq<char>, Seq<char>)>>) -> bool {
    &&& setting(files, "database.username"@) is Some
    &&& setting(files, "database.password"@) is Some
    &&& setting(files, "database.port"@) matches Some(dp)
        && dec_digits(dp) && dec_val(dp) <= u16::MAX
    &&& setting(files, "database.host"@) is Some
    &&& setting(files, "database.db_name"@) is Some
    &&& setting(files, "database.require_ssl"@) matches Some(ds)
        && (ds == "true"@ || ds == "false"@)
    &&& setting(files, "application.port"@) matches Some(ap)
        && dec_digits(ap) && dec_val(ap) <= u16::MAX
    &&& setting(files, "application.host"@) is Some
    &&& setting(files, "application.base_url"@) is Some
    &&& setting(files, "application.environment"@) is Some
    &&& setting(files, "application.version"@) is Some
    &&& setting(files, "application.name"@) is Some
}

/// Loads layered configuration files through a directory reader and a
/// file filter: the base directory's configuration files first, then, if
/// overwrites are enabled, those of the environment's subdirectory.
#[derive(Debug, Clone)]
pub struct SettingsLoader<R, F> {
    pub reader: R,
    pub filter: F,
    pub files: Vec<String>,
    pub overwrites: SettingsOverwrite,
    pub environment: Environment,
    pub directory: SettingsDirectory,
}

impl<R: DirectoryReader, F: SettingsFileFilter> SettingsLoader<R, F> {
    /// A loader over the given directory, with no file loaded yet.
    pub fn new(
        directory: SettingsDirectory,
        overwrites: SettingsOverwrite,
        environment: Environment,
        reader: R,
        filter: F,
    ) -> (s: Self)
        ensures
            s.directory == directory,
            s.overwrites == overwrites,
            s.environment == environment,
            s.reader == reader,
            s.filter == filter,
            s.files@ == Seq::<String>::empty(),
    {
        let s = SettingsLoader {
            reader,
            filter,
            directory,
            environment,
            overwrites,
            files: Vec::new(),
        };
        proof {
            assert(s.files@ =~= Seq::<String>::empty());
        }
        s
    }

    /// The directory configuration is loaded from.
    pub fn directory(&self) -> (r: &SettingsDirectory)
        ensures
            r == self.directory,
    {
        &self.directory
    }

    /// Points the loader at another directory.
    pub fn change_directory(&mut self, directory: &str) -> (ret: &mut Self)
        ensures
            (*ret).directory.0@ == directory@,
            (*ret).reader == old(self).reader,
            (*ret).filter == old(self).filter,
            (*ret).files == old(self).files,
            (*ret).overwrites == old(self).overwrites,
            (*ret).environment == old(self).environment,
            *final(self) == *final(ret),
    {
        self.directory = SettingsDirectory::new(String::from_str(directory));
        self
    }

    /// Whether the environment's overwrite files take part in loading.
    pub fn is_overwrite_enabled(&self) -> (r: bool)
        ensures
            r == (self.overwrites is Enabled),
    {
        match self.overwrites {
            SettingsOverwrite::Enabled => true,
            SettingsOverwrite::Disabled => false,
        }
    }

    /// Keeps the environment's overwrite files out of loading.
    pub fn disable_overwrites(&mut self) -> (ret: &mut Self)
        ensures
            (*ret).overwrites is Disabled,
            (*ret).reader == old(self).reader,
            (*ret).filter == old(self).filter,
            (*ret).files == old(self).files,
            (*ret).directory == old(self).directory,
            (*ret).environment == old(self).environment,
            *final(self) == *final(ret),
    {
        self.overwrites = SettingsOverwrite::Disabled;
        self
    }

    /// The directory the environment's overwrite files live in.
    pub open spec fn env_directory_spec(&self) -> Seq<char> {
        self.directory.0@ + "/"@ + match self.environment {
            Environment::Development => "development"@,
            Environment::Testing => "testing"@,
            Environment::Production => "production"@,
        }
    }

    /// The configuration files of the base directory, in listing order.
    pub open spec fn base_files_spec(&self) -> Seq<Seq<char>> {
        self.reader.entries_spec(self.directory.0@)->Ok_0
            .filter(|p: Seq<char>| self.filter.is_config_spec(p))
    }

    /// The configuration files of the environment's subdirectory, or
    /// nothing when overwrites are disabled.
    pub open spec fn overwrites_files_spec(&self) -> Seq<Seq<char>> {
        if self.overwrites is Enabled {
            self.reader.entries_spec(self.env_directory_spec())->Ok_0
                .filter(|p: Seq<char>| self.filter.is_config_spec(p))
        } else {
            Seq::empty()
        }
    }

    /// Lists the base directory and keeps its configuration files.
    pub fn base_files(&self) -> (r: Vec<String>)
        requires
            self.reader.entries_spec(self.directory.0@) is Ok,
        ensures
            r.deep_view() == self.base_files_spec(),
    {
        let entries = match self.reader.read_directory(&self.directory.0) {
            Ok(entries) => entries,
            Err(_) => Vec::new(),
        };
        self.filter.filter_config_files(entries)
    }

    /// Lists the environment's subdirectory and keeps its configuration
    /// files; nothing when overwrites are disabled.
    pub fn overwrites_files(&self) -> (r: Vec<String>)
        requires
            self.overwrites is Enabled ==> self.reader.entries_spec(self.env_directory_spec()) is Ok,
        ensures
            r.deep_view() == self.overwrites_files_spec(),
    {
        if !self.is_overwrite_enabled() {
            let r: Vec<String> = Vec::new();
            proof {
                assert(r.deep_view() =~= Seq::<Seq<char>>::empty());
            }
            return r;
        }
        let directory = self.directory.join(self.environment.as_str());
        let entries = match self.reader.read_directory(&directory) {
            Ok(entries) => entries,
            Err(_) => Vec::new(),
        };
        self.filter.filter_config_files(entries)
    }

    /// Lists the directories and appends their configuration files to
    /// the loaded set: the base files first, then the overwrites.
    pub fn load_files(&mut self) -> (ret: &mut Self)
        requires
            old(self).reader.entries_spec(old(self).directory.0@) is Ok,
            old(self).overwrites is Enabled
                ==> old(self).reader.entries_spec(old(self).env_directory_spec()) is Ok,
        ensures
            (*ret).files.deep_view() == old(self).files.deep_view()
                + old(self).base_files_spec() + old(self).overwrites_files_spec(),
            (*ret).reader == old(self).reader,
            (*ret).filter == old(self).filter,
            (*ret).overwrites == old(self).overwrites,
            (*ret).directory == old(self).directory,
            (*ret).environment == old(self).environment,
            *final(self) == *final(ret),
    {
        let mut base = self.base_files();
        let mut overwrites = self.overwrites_files();
        let ghost pre = self.files.deep_view();
        let ghost basev = base.deep_view();
        let ghost overv = overwrites.deep_view();
        self.files.append(&mut base);
        self.files.append(&mut overwrites);
        proof {
            assert(self.files.deep_view() =~= pre + basev + overv);
        }
        self
    }

    /// Builds the typed configuration from the parsed contents of the
    /// loaded files, given in the loaded order: each key takes the value
    /// of its last entry across the files, and missing or malformed
    /// values fail the whole build.
    pub fn deserialize(&self, contents: &Vec<SettingsEntries>) -> (r: Result<Config, String>)
        ensures
            match r {
                Ok(c) => {
                    let fv = contents.deep_view();
                    &&& config_extractable(fv)
                    &&& Some(c.database.username@) == setting(fv, "database.username"@)
                    &&& Some(c.database.password@) == setting(fv, "database.password"@)
                    &&& Some(c.database.host@) == setting(fv, "database.host"@)
                    &&& Some(c.database.db_name@) == setting(fv, "database.db_name"@)
                    &&& c.database.port == dec_val(setting(fv, "database.port"@)->0)
                    &&& c.database.require_ssl == (setting(fv, "database.require_ssl"@)->0 == "true"@)
                    &&& c.application.port == dec_val(setting(fv, "application.port"@)->0)
                    &&& Some(c.application.host@) == setting(fv, "application.host"@)
                    &&& Some(c.application.base_url@) == setting(fv, "application.base_url"@)
                    &&& Some(c.application.environment@) == setting(fv, "application.environment"@)
                    &&& Some(c.application.version@) == setting(fv, "application.version"@)
                    &&& Some(c.application.name@) == setting(fv, "application.name"@)
                },
                Err(e) => {
                    &&& !config_extractable(contents.deep_view())
                    &&& e@ == "Failed to deserialize the configuration"@
                },
            },
    {
        let username = match lookup_setting(contents, &String::from_str("database.username")) {
            Some(v) => v,
            None => { return Err(String::from_str("Failed to deserialize the configuration")); },
        };
        let password = match lookup_setting(contents, &String::from_str("database.password")) {
            Some(v) => v,
            None => { return Err(String::from_str("Failed to deserialize the configuration")); },
        };
        let db_host = match lookup_setting(contents, &String::from_str("database.host")) {
            Some(v) => v,
            None => { return Err(String::from_str("Failed to deserialize the configuration")); },
        };
        let db_name = match lookup_setting(contents, &String::from_str("database.db_name")) {
            Some(v) => v,
            None => { return Err(String::from_str("Failed to deserialize the configuration")); },
        };
        let db_port_str = match lookup_setting(contents, &String::from_str("database.port")) {
            Some(v) => v,
            None => { return Err(String::from_str("Failed to deserialize the configuration")); },
        };
        let db_port = match parse_u16(db_port_str.as_str()) {
            Some(v) => v,
            None => { return Err(String::from_str("Failed to deserialize the configuration")); },
        };
        let require_ssl_str = match lookup_setting(contents, &String::from_str("database.require_ssl")) {
            Some(v) => v,
            None => { return Err(String::from_str("Failed to deserialize the configuration")); },
        };
        let require_ssl = match parse_bool(require_ssl_str.as_str()) {
            Some(v) => v,
            None => { return Err(String::from_str("Failed to deserialize the configuration")); },
        };
        let app_port_str = match lookup_setting(contents, &String::from_str("application.port")) {
            Some(v) => v,
            None => { return Err(String::from_str("Failed to deserialize the configuration")); },
        };
        let app_port = match parse_u16(app_port_str.as_str()) {
            Some(v) => v,
            None => { return Err(String::from_str("Failed to deserialize the configuration")); },
        };
        let app_host = match lookup_setting(contents, &String::from_str("application.host")) {
            Some(v) => v,
            None => { return Err(String::from_str("Failed to deserialize the configuration")); },
        };
        let base_url = match lookup_setting(contents, &String::from_str("application.base_url")) {
            Some(v) => v,
            None => { return Err(String::from_str("Failed to deserialize the configuration")); },
        };
        let environment = match lookup_setting(contents, &String::from_str("application.environment")) {
            Some(v) => v,
            None => { return Err(String::from_str("Failed to deserialize the configuration")); },
        };
        let version = match lookup_setting(contents, &String::from_str("application.version")) {
            Some(v) => v,
            None => { return Err(String::from_str("Failed to deserialize the configuration")); },
        };
        let name = match lookup_setting(contents, &String::from_str("application.name")) {
            Some(v) => v,
            None => { return Err(String::from_str("Failed to deserialize the configuration")); },
        };
        Ok(Config {
            database: DatabaseConfig {
                username,
                password,
                port: db_port,
                host: db_host,
                db_name,
                require_ssl,
            },
            application: ApplicationConfig {
                port: app_port,
                host: app_host,
                base_url,
                environment,
                version,
                name,
            },
        })
    }
}

impl Default for SettingsLoader<StaticDirectoryReader, TomlSettingsFileFilter> {
    /// A loader over the "config" directory with overwrites enabled, the
    /// development environment assumed, an empty in-memory reader and
    /// the stock file filter.
    fn default() -> (s: Self)
        ensures
            s.directory.0@ == "config"@,
            s.overwrites is Enabled,
            s.environment == Environment::Development,
            s.files@ == Seq::<String>::empty(),
            s.reader.listings@ == Seq::<(String, Vec<String>)>::empty(),
    {
        let reader = StaticDirectoryReader::new(Vec::new());
        proof {
            assert(reader.listings@ =~= Seq::<(String, Vec<String>)>::empty());
        }
        SettingsLoader::new(
            SettingsDirectory::new(String::from_str("config")),
            SettingsOverwrite::Enabled,
            Environment::Development,
            reader,
            TomlSettingsFileFilter::new(),
        )
    }
}

} // verus!
