//! Where a tool keeps its config and its state.
//!
//! Defaults come from the platform's own convention via `directories`.
//! Overrides are applied by the caller -- nothing here reads the environment.
//! Paths are held as text and joined as a Unix `PathBuf::join` joins them.
use vstd::prelude::*;

use crate::netkit::error::Error;
use crate::text;
use crate::text::{cat, cat3, ends_with_str, starts_with_str};

verus! {

/// `dir` joined with `segment`: an absolute segment replaces the directory,
/// otherwise the two are put together with one `/` between them.
pub open spec fn join(dir: Seq<char>, segment: Seq<char>) -> Seq<char> {
    if text::starts_with(segment, "/"@) || dir.len() == 0 {
        segment
    } else if text::ends_with(dir, "/"@) {
        dir + segment
    } else {
        dir + "/"@ + segment
    }
}

/// `PathBuf::join` on Unix, on paths held as text.
pub fn join_path(dir: &str, segment: &str) -> (r: String)
    ensures
        r@ == join(dir@, segment@),
{
    if starts_with_str(segment, "/") || dir.is_empty() {
        segment.to_owned()
    } else if ends_with_str(dir, "/") {
        cat(dir, segment)
    } else {
        cat3(dir, "/", segment)
    }
}

/// What `Paths::defaults` makes of the platform's directories: an error
/// where there are none, else their config directory, and their state
/// directory or, lacking one, their data directory.
pub open spec fn defaults_give(dirs: Option<(String, Option<String>, String)>, r: Result<Paths, Error>) -> bool {
    match dirs {
        None => r is Err,
        Some((config, state, data)) => r matches Ok(p) && p.config_dir@ == config@
            && p.state_dir@ == (match state {
                Some(s) => s@,
                None => data@,
            }),
    }
}

#[derive(Clone, Debug)]
pub struct Paths {
    pub config_dir: String,
    pub state_dir: String,
}

impl Paths {
    /// Build from two known directories, for a caller that has both already.
    pub fn new(config_dir: String, state_dir: String) -> (p: Paths)
        ensures
            p.config_dir@ == config_dir@,
            p.state_dir@ == state_dir@,
    {
        Paths { config_dir, state_dir }
    }

    /// The platform's directories for an application, as `directories` gives
    /// them: config, state where the platform has one, and data. `None` where
    /// no home directory can be found.
    pub fn defaults_from(app_name: &str, dirs: Option<(String, Option<String>, String)>) -> (r: Result<Paths, Error>)
        ensures
            defaults_give(dirs, r),
    {
        match dirs {
            None => Err(Error::Config(cat(
                "could not determine a config directory for ",
                app_name,
            ))),
            Some((config, state, data)) => {
                let state_dir = match state {
                    Some(s) => s,
                    None => data,
                };
                Ok(Paths { config_dir: config, state_dir })
            },
        }
    }

    /// Platform defaults for an application name.
    ///
    /// Not every platform has a state directory distinct from its data
    /// directory; where it does not, state lands in the data directory rather
    /// than failing.
    pub fn defaults(app_name: &str) -> (r: Result<Paths, Error>)
        ensures
            exists|dirs: Option<(String, Option<String>, String)>| #[trigger] defaults_give(dirs, r),
    {
        let dirs = project_dirs(app_name);
        Paths::defaults_from(app_name, dirs)
    }

    pub fn with_config_dir(self, dir: String) -> (p: Paths)
        ensures
            p.config_dir@ == dir@,
            p.state_dir@ == self.state_dir@,
    {
        Paths { config_dir: dir, state_dir: self.state_dir }
    }

    pub fn with_state_dir(self, dir: String) -> (p: Paths)
        ensures
            p.config_dir@ == self.config_dir@,
            p.state_dir@ == dir@,
    {
        Paths { config_dir: self.config_dir, state_dir: dir }
    }

    /// The same config directory, with state moved under a namespace.
    ///
    /// One tool talking to several retailers keeps their tokens apart: a token
    /// for one banner presented to another is not merely refused, it answers
    /// with someone else's empty cart.
    pub fn scoped(&self, ns: &str) -> (p: Paths)
        ensures
            p.config_dir@ == self.config_dir@,
            p.state_dir@ == join(self.state_dir@, ns@),
    {
        Paths { config_dir: self.config_dir.clone(), state_dir: join_path(self.state_dir.as_str(), ns) }
    }

    pub fn config_file(&self) -> (r: String)
        ensures
            r@ == join(self.config_dir@, "config.toml"@),
    {
        join_path(self.config_dir.as_str(), "config.toml")
    }

    pub fn state_file(&self, name: &str) -> (r: String)
        ensures
            r@ == join(self.state_dir@, name@),
    {
        join_path(self.state_dir.as_str(), name)
    }
}

/// `directories::ProjectDirs::from("", "", app_name)`, as its config, state
/// and data directories. What it finds depends on the environment (the home
/// directory), so nothing is stated of it.
#[verifier::external_body]
fn project_dirs(app_name: &str) -> Option<(String, Option<String>, String)> {
    let d = directories::ProjectDirs::from("", "", app_name)?;
    Some((
        d.config_dir().to_string_lossy().into_owned(),
        d.state_dir().map(|p| p.to_string_lossy().into_owned()),
        d.data_dir().to_string_lossy().into_owned(),
    ))
}

} // verus!
