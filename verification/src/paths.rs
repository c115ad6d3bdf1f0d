//! Resolution of the well-known file paths the shell works with.
//!
//! A path is modeled as its components in order (for an absolute path,
//! relative to the file-system root). Two launch layouts are
//! supported: started from the nested build directory (the current
//! directory's last component is `src-tauri`, and the project root is
//! two components up), or started from the project root itself.

use vstd::prelude::*;
use vstd::string::StringExecFns;

use crate::text::str_eq;

verus! {

/// A file-system path, as its components in order.
pub struct FsPath {
    pub parts: Vec<String>,
}

impl View for FsPath {
    type V = Seq<Seq<char>>;

    open spec fn view(&self) -> Seq<Seq<char>> {
        self.parts.deep_view()
    }
}

/// The current directory names the nested build directory.
pub open spec fn spec_in_build_dir(p: Seq<Seq<char>>) -> bool {
    p.len() > 0 && p.last() == "src-tauri"@
}

/// The project root: two components up from the nested build
/// directory, or the current directory itself.
pub open spec fn spec_project_root(p: Seq<Seq<char>>) -> Seq<Seq<char>> {
    if spec_in_build_dir(p) {
        p.take(p.len() - 2)
    } else {
        p
    }
}

/// Where the settings file lives, relative to the launch directory.
pub open spec fn spec_env_file_path(p: Seq<Seq<char>>) -> Seq<Seq<char>> {
    spec_project_root(p).push(".env"@)
}

/// Where the monitoring-stats file lives.
pub open spec fn spec_monitoring_stats_path(p: Seq<Seq<char>>) -> Seq<Seq<char>> {
    spec_project_root(p).push("logs"@).push("monitoring_stats.json"@)
}

/// Where the monitoring worker's script lives.
pub open spec fn spec_bot_script_path(p: Seq<Seq<char>>) -> Seq<Seq<char>> {
    spec_project_root(p).push("scripts"@).push("monitoring"@).push("arbitrage_bot.py"@)
}

impl FsPath {
    /// Does this directory name the nested build directory?
    pub fn in_build_dir(&self) -> (r: bool)
        ensures
            r == spec_in_build_dir(self@),
    {
        if self.parts.len() == 0 {
            return false;
        }
        let last: &String = &self.parts[self.parts.len() - 1];
        str_eq(last.as_str(), "src-tauri")
    }

    /// The project root for this launch directory. A launch directory
    /// that names the build directory has at least two components (the
    /// build directory is nested inside the project).
    pub fn project_root(&self) -> (r: FsPath)
        requires
            spec_in_build_dir(self@) ==> self.parts.len() >= 2,
        ensures
            r@ == spec_project_root(self@),
    {
        let keep: usize = if self.in_build_dir() {
            self.parts.len() - 2
        } else {
            self.parts.len()
        };
        let mut parts: Vec<String> = Vec::new();
        let mut i: usize = 0;
        while i < keep
            invariant
                0 <= i <= keep <= self.parts@.len(),
                parts@.len() == i,
                forall|j: int| 0 <= j < i ==> parts@[j] == self.parts@[j],
            decreases keep - i,
        {
            parts.push(self.parts[i].clone());
            i += 1;
        }
        let r = FsPath { parts };
        proof {
            assert(r@ =~= spec_project_root(self@));
        }
        r
    }

    /// The settings file path for this launch directory.
    pub fn env_file_path(&self) -> (r: FsPath)
        requires
            spec_in_build_dir(self@) ==> self.parts.len() >= 2,
        ensures
            r@ == spec_env_file_path(self@),
    {
        let mut root = self.project_root();
        root.parts.push(String::from_str(".env"));
        proof {
            assert(root@ =~= spec_env_file_path(self@));
        }
        root
    }

    /// The monitoring-stats file path for this launch directory.
    pub fn monitoring_stats_path(&self) -> (r: FsPath)
        requires
            spec_in_build_dir(self@) ==> self.parts.len() >= 2,
        ensures
            r@ == spec_monitoring_stats_path(self@),
    {
        let mut root = self.project_root();
        root.parts.push(String::from_str("logs"));
        root.parts.push(String::from_str("monitoring_stats.json"));
        proof {
            assert(root@ =~= spec_monitoring_stats_path(self@));
        }
        root
    }

    /// The monitoring worker's script path for this launch directory.
    pub fn bot_script_path(&self) -> (r: FsPath)
        requires
            spec_in_build_dir(self@) ==> self.parts.len() >= 2,
        ensures
            r@ == spec_bot_script_path(self@),
    {
        let mut root = self.project_root();
        root.parts.push(String::from_str("scripts"));
        root.parts.push(String::from_str("monitoring"));
        root.parts.push(String::from_str("arbitrage_bot.py"));
        proof {
            assert(root@ =~= spec_bot_script_path(self@));
        }
        root
    }
}

} // verus!
