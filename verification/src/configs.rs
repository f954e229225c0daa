//! The persisted configuration: the three paths and the current bundle.

pub mod current_mod_config;
pub mod key_value;
pub mod paths_config;

use crate::configs::current_mod_config::{
    format_current_mod, parse_current_mod, CurrentMod, CurrentModError, CurrentModErrorView,
    MODS_CONFIG_FILE_NAME,
};
use crate::configs::paths_config::{
    format_paths_config, parse_paths_config, PathsConfig, PathsConfigError, PathsConfigErrorView,
    PathsConfigView, PATH_CONFIGS_FILE_NAME,
};
use crate::hotline_mod::HotlineModName;
use vstd::prelude::*;

verus! {

/// What the configuration holds: the paths, and the directory name of the
/// current bundle where one is known.
pub struct ConfigsView {
    pub paths_config: PathsConfigView,
    pub current_mod: Option<Seq<char>>,
}

/// The whole configuration of the program, owned by the manager.
#[derive(Debug)]
pub struct Configs {
    paths_config: PathsConfig,
    current_mod: Option<CurrentMod>,
}

impl View for Configs {
    type V = ConfigsView;

    open spec fn view(&self) -> ConfigsView {
        ConfigsView {
            paths_config: self.stored_paths()@,
            current_mod: match self.stored_current_mod() {
                Some(current) => Some(current@),
                None => None,
            },
        }
    }
}

/// The current bundle that a reading of its file gives: the name found, or
/// none where the file could not be read or names none.
pub open spec fn current_mod_of(mods_content: Result<Seq<char>, Seq<char>>) -> Option<Seq<char>> {
    match mods_content {
        Ok(content) => match parse_current_mod(content) {
            Ok(name) => Some(name),
            Err(_) => None,
        },
        Err(_) => None,
    }
}

/// The label shown for the current bundle: its directory name, or a word of
/// doubt where none is known.
pub open spec fn current_mod_label(current_mod: Option<Seq<char>>) -> Seq<char> {
    match current_mod {
        Some(name) => name,
        None => "Uncertain..."@,
    }
}

impl Configs {
    /// The paths held.
    pub closed spec fn stored_paths(&self) -> PathsConfig {
        self.paths_config
    }

    /// The current bundle held.
    pub closed spec fn stored_current_mod(&self) -> Option<CurrentMod> {
        self.current_mod
    }

    /// A configuration of these parts.
    pub fn new(paths_config: PathsConfig, current_mod: Option<CurrentMod>) -> (r: Self)
        ensures
            r@.paths_config == paths_config@,
            r@.current_mod == match current_mod {
                Some(current) => Some(current@),
                None => None,
            },
    {
        Configs { paths_config, current_mod }
    }

    /// Reads the configuration from the content of the paths file and from
    /// what reading the current bundle's file gave: its content, or the
    /// cause for which it could not be read. Only the paths file can make
    /// this fail; a current bundle that cannot be read is unknown.
    pub fn build(paths_content: &str, mods_content: Result<&str, String>) -> (r: Result<
        Configs,
        PathsConfigError,
    >)
        ensures
            match r {
                Ok(configs) => parse_paths_config(paths_content@) == Ok::<
                    PathsConfigView,
                    PathsConfigErrorView,
                >(configs@.paths_config) && configs@.current_mod == current_mod_of(
                    match mods_content {
                        Ok(content) => Ok(content@),
                        Err(cause) => Err(cause@),
                    },
                ),
                Err(error) => parse_paths_config(paths_content@) == Err::<
                    PathsConfigView,
                    PathsConfigErrorView,
                >(error@),
            },
    {
        let paths_config = match PathsConfig::build(paths_content) {
            Ok(paths_config) => paths_config,
            Err(error) => {
                return Err(error);
            },
        };
        let current_mod = match mods_content {
            Ok(content) => match CurrentMod::build(content) {
                Ok(current) => Some(current),
                Err(_) => None,
            },
            Err(_) => None,
        };
        Ok(Configs { paths_config, current_mod })
    }

    /// The files to delete so that nothing of the configuration stays on
    /// disk: the paths file, and the current bundle's file where a current
    /// bundle is known. The value in memory stays as it is.
    pub fn clear(&self) -> (r: Vec<&'static str>)
        ensures
            r@.len() == if self@.current_mod is Some {
                2int
            } else {
                1int
            },
            r@[0]@ == PATH_CONFIGS_FILE_NAME@,
            self@.current_mod is Some ==> r@[1]@ == MODS_CONFIG_FILE_NAME@,
    {
        let mut files: Vec<&'static str> = Vec::new();
        files.push(self.paths_config.clear());
        if let Some(current_mod) = &self.current_mod {
            files.push(current_mod.clear());
        }
        files
    }

    /// The paths.
    pub fn paths_config(&self) -> (r: &PathsConfig)
        ensures
            r@ == self@.paths_config,
    {
        &self.paths_config
    }

    /// The paths, to change them in place.
    pub fn mut_paths_config(&mut self) -> (r: &mut PathsConfig)
        ensures
            *r == old(self).stored_paths(),
            final(self).stored_paths() == *final(r),
            final(self).stored_current_mod() == old(self).stored_current_mod(),
    {
        &mut self.paths_config
    }

    /// The current bundle, where one is known.
    pub fn current_mod(&self) -> (r: Option<&CurrentMod>)
        ensures
            match r {
                Some(current) => self@.current_mod == Some(current@),
                None => self@.current_mod is None,
            },
    {
        self.current_mod.as_ref()
    }

    /// Takes other paths and returns the content that the paths file must
    /// hold from now on.
    pub fn set_paths_config(&mut self, paths_config: PathsConfig) -> (r: String)
        ensures
            final(self)@.paths_config == paths_config@,
            final(self)@.current_mod == old(self)@.current_mod,
            r@ == format_paths_config(paths_config@),
    {
        self.paths_config = paths_config;
        self.paths_config.save()
    }

    /// Makes `current_mod` the current bundle, given how writing it to its
    /// file went. Where the write failed the configuration stays as it was
    /// and the failure is returned with its cause.
    pub fn set_current_mod(
        &mut self,
        current_mod: HotlineModName,
        persisted: Result<(), String>,
    ) -> (r: Result<(), CurrentModError>)
        ensures
            final(self)@.paths_config == old(self)@.paths_config,
            match persisted {
                Ok(_) => r is Ok && final(self)@.current_mod == Some(current_mod@),
                Err(cause) => r matches Err(error) && error@ == CurrentModErrorView::IoError(
                    cause@,
                ) && final(self)@.current_mod == old(self)@.current_mod,
            },
    {
        match persisted {
            Ok(_) => {
                self.current_mod = Some(CurrentMod::from_mod(current_mod));
                Ok(())
            },
            Err(cause) => Err(CurrentModError::IoError(cause)),
        }
    }

    /// The content of both files for this configuration: that of the paths
    /// file, and that of the current bundle's file, which is empty where no
    /// current bundle is known.
    pub fn save_configs_to_file(&self) -> (r: (String, String))
        ensures
            r.0@ == format_paths_config(self@.paths_config),
            r.1@ == match self@.current_mod {
                Some(name) => format_current_mod(name),
                None => Seq::empty(),
            },
    {
        let paths = self.paths_config.save();
        let current_mod = match &self.current_mod {
            Some(current) => current.save(),
            None => String::new(),
        };
        (paths, current_mod)
    }

    /// The message about a failed reading of the current bundle: one for a
    /// file that could not be read, none for a file that names no bundle.
    pub fn on_current_mod_error(error: &CurrentModError) -> (r: Option<String>)
        ensures
            match r {
                Some(message) => error matches CurrentModError::IoError(cause) && message@
                    == "Something wrong happened while trying to read the current mod: "@
                    + cause@,
                None => error is CurrentModNotFound,
            },
    {
        match error {
            CurrentModError::IoError(cause) => {
                let mut message = String::from_str(
                    "Something wrong happened while trying to read the current mod: ",
                );
                message.append(cause.as_str());
                Some(message)
            },
            CurrentModError::CurrentModNotFound => None,
        }
    }

    /// The line that tells which bundle is in use.
    pub fn print_mod_name(&self) -> (r: String)
        ensures
            r@ == "You are currently using: "@ + current_mod_label(self@.current_mod),
    {
        let mut message = String::from_str("You are currently using: ");
        match &self.current_mod {
            Some(current) => message.append(current.name().directory_name()),
            None => message.append("Uncertain..."),
        }
        message
    }
}

} // verus!
