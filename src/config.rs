use vstd::prelude::*;

use crate::error::Error;

verus! {

/// The settings of one invocation, read-only once merged.
#[derive(Clone, Debug)]
pub struct Config {
    /// Show what would run instead of running it.
    pub dry_run: bool,
    /// Do not reinstall packages that are already installed.
    pub needed: bool,
    /// Answer yes to every question.
    pub no_confirm: bool,
    /// Remove the package cache after a successful install.
    pub no_cache: bool,
    /// The package manager to use when none is given on the command line.
    pub default_pm: Option<String>,
    /// Whether the host is macOS, where Homebrew also manages casks.
    pub macos: bool,
}

/// The switch value that a saved setting spells, if any.
pub open spec fn switch_of(v: Seq<char>) -> Option<bool> {
    if v == "true"@ {
        Some(true)
    } else if v == "false"@ {
        Some(false)
    } else {
        None
    }
}

/// The settings after the saved setting `key = value`; none when the key is
/// unknown or a switch is neither `true` nor `false`.
pub open spec fn applied(cfg: Config, key: Seq<char>, value: String) -> Option<Config> {
    if key == "default_pm"@ {
        Some(Config { default_pm: Some(value), ..cfg })
    } else if switch_of(value@) is None {
        None
    } else {
        let b = switch_of(value@).unwrap();
        if key == "dry_run"@ {
            Some(Config { dry_run: b, ..cfg })
        } else if key == "needed"@ {
            Some(Config { needed: b, ..cfg })
        } else if key == "no_confirm"@ {
            Some(Config { no_confirm: b, ..cfg })
        } else if key == "no_cache"@ {
            Some(Config { no_cache: b, ..cfg })
        } else {
            None
        }
    }
}

fn same_text(s: &String, w: &'static str) -> (r: bool)
    ensures
        r == (s@ == w@),
{
    let owned: String = w.to_owned();
    *s == owned
}

impl Config {
    /// Applies one saved setting `key = value`. Fails with
    /// `ConfigLoadFailure`, leaving the settings as they were, when the key is
    /// unknown or a switch is neither `true` nor `false`.
    pub fn apply(&mut self, key: &String, value: &String) -> (r: Result<(), Error>)
        ensures
            match applied(*old(self), key@, *value) {
                Some(c) => r is Ok && *final(self) == c,
                None => r == Err::<(), Error>(Error::ConfigLoadFailure) && *final(self) == *old(
                    self,
                ),
            },
    {
        if same_text(key, "default_pm") {
            self.default_pm = Some(value.clone());
            return Ok(());
        }
        let b = if same_text(value, "true") {
            true
        } else if same_text(value, "false") {
            false
        } else {
            return Err(Error::ConfigLoadFailure);
        };
        if same_text(key, "dry_run") {
            self.dry_run = b;
        } else if same_text(key, "needed") {
            self.needed = b;
        } else if same_text(key, "no_confirm") {
            self.no_confirm = b;
        } else if same_text(key, "no_cache") {
            self.no_cache = b;
        } else {
            return Err(Error::ConfigLoadFailure);
        }
        Ok(())
    }

    /// A configuration with every switch off and no package manager chosen.
    pub fn empty() -> (r: Config)
        ensures
            !r.dry_run,
            !r.needed,
            !r.no_confirm,
            !r.no_cache,
            r.default_pm is None,
            !r.macos,
    {
        Config {
            dry_run: false,
            needed: false,
            no_confirm: false,
            no_cache: false,
            default_pm: None,
            macos: false,
        }
    }
}

} // verus!
