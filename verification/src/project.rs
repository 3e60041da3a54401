//! The project file (`.fz.toml`) and how the board of a command is chosen.
use vstd::prelude::*;

use crate::config::{first_of, opt_view, Config, ConfigError};

verus! {

/// The name of the project file, searched for from the working directory upwards.
pub const PROJECT_FILE: &'static str = ".fz.toml";

/// The project file.
#[derive(Debug)]
pub struct ProjectConfig {
    pub board_id: Option<String>,
    pub account: Option<String>,
}

impl Default for ProjectConfig {
    fn default() -> (c: Self)
        ensures
            c.board_id is None,
            c.account is None,
    {
        ProjectConfig { board_id: None, account: None }
    }
}

impl ProjectConfig {
    /// The project file that was found and read, or the empty default when there is
    /// none or it could not be read.
    pub fn load_or_default(loaded: Option<ProjectConfig>) -> (c: Self)
        ensures
            loaded matches Some(l) ==> c == l,
            loaded is None ==> c.board_id is None && c.account is None,
    {
        match loaded {
            Some(l) => l,
            None => ProjectConfig::default(),
        }
    }

    /// The board of the project: the project file's board, falling back to the global
    /// configuration's board.
    pub fn board_id(&self, global: &Config) -> (r: Option<String>)
        ensures
            opt_view(r) == first_of(self.board_id, global.board),
    {
        match &self.board_id {
            Some(b) => Some(b.clone()),
            None => match &global.board {
                Some(g) => Some(g.clone()),
                None => None,
            },
        }
    }

    /// The paths that the project file search yields end in `/` and [`PROJECT_FILE`].
    pub open spec fn is_project_file_path(p: Seq<char>) -> bool {
        let suffix = "/"@ + PROJECT_FILE@;
        p.len() >= suffix.len() && p.skip(p.len() - suffix.len()) == suffix
    }

    /// The directory that holds the project file: the found path without its last component.
    pub open spec fn project_root_spec(found: Seq<char>) -> Seq<char> {
        let dir = found.take(found.len() - ("/"@ + PROJECT_FILE@).len());
        if dir.len() == 0 {
            "/"@
        } else {
            dir
        }
    }

    /// Project root is the directory containing the project file; `found` is the path
    /// that the search found, if any.
    pub fn project_root(found: Option<&str>) -> (r: Option<String>)
        requires
            found matches Some(p) ==> Self::is_project_file_path(p@),
        ensures
            match found {
                Some(p) => r matches Some(d) && d@ == Self::project_root_spec(p@),
                None => r is None,
            },
    {
        match found {
            Some(p) => {
                let v = crate::text::chars_of(p);
                let ghost suffix = "/"@ + PROJECT_FILE@;
                proof {
                    reveal_strlit("/");
                    reveal_strlit(".fz.toml");
                    assert(suffix.len() == 9);
                }
                let cut: usize = 9;
                let dir = crate::text::string_of_range(&v, 0, v.len() - cut);
                assert(v@.subrange(0, v@.len() - cut) == v@.take(v@.len() - suffix.len()));
                if dir.as_str().is_empty() {
                    Some("/".to_owned())
                } else {
                    Some(dir)
                }
            },
            None => None,
        }
    }

    /// The board a command works on: the flag, else the project file, else the global file.
    pub open spec fn resolve_board_spec(
        flag: Option<Seq<char>>,
        project: &ProjectConfig,
        global: &Config,
    ) -> Option<Seq<char>> {
        match flag {
            Some(f) => Some(f),
            None => first_of(project.board_id, global.board),
        }
    }

    /// Resolve board ID: flag > project config > global config.
    pub fn resolve_board(flag: Option<&str>, project: &ProjectConfig, global: &Config) -> (r: Result<
        String,
        ConfigError,
    >)
        ensures
            match Self::resolve_board_spec(
                match flag {
                    Some(f) => Some(f@),
                    None => None,
                },
                project,
                global,
            ) {
                Some(b) => r matches Ok(s) && s@ == b,
                None => r == Err::<String, ConfigError>(ConfigError::NoBoard),
            },
    {
        match flag {
            Some(f) => Ok(f.to_owned()),
            None => match &project.board_id {
                Some(b) => Ok(b.clone()),
                None => match &global.board {
                    Some(g) => Ok(g.clone()),
                    None => Err(ConfigError::NoBoard),
                },
            },
        }
    }
}

/// The project file of a directory leads back to that directory: for an absolute directory
/// (`/`, or one without a trailing `/`), the path of its project file is one that the search
/// yields, and the root of that path is the directory.
pub proof fn law_project_root_of_file_in(dir: Seq<char>)
    requires
        dir.len() > 0,
        dir[0] == '/',
        dir.len() == 1 || dir.last() != '/',
    ensures
        ProjectConfig::is_project_file_path(crate::setup::project_file_in_spec(dir)),
        ProjectConfig::project_root_spec(crate::setup::project_file_in_spec(dir)) == dir,
{
    reveal_strlit("/");
    let suffix = "/"@ + PROJECT_FILE@;
    let p = crate::setup::project_file_in_spec(dir);
    if dir.len() == 1 {
        assert(dir =~= "/"@);
        assert(p =~= suffix);
        assert(p.skip(p.len() - suffix.len()) =~= suffix);
        assert(p.take(p.len() - suffix.len()) =~= Seq::<char>::empty());
    } else {
        assert(p =~= dir + suffix);
        assert(p.skip(p.len() - suffix.len()) =~= suffix);
        assert(p.take(p.len() - suffix.len()) =~= dir);
    }
}
/// The root of a found project file, joined with the file's name, gives the found path
/// back, for every path the search yields: one ending in `/` and the file's name, whose
/// directory part is empty (the file at `/`) or does not end in `/`.
pub proof fn law_file_in_root_is_found_path(found: Seq<char>)
    requires
        ProjectConfig::is_project_file_path(found),
        ({
            let dir = found.take(found.len() - ("/"@ + PROJECT_FILE@).len());
            dir.len() == 0 || dir.last() != '/'
        }),
    ensures
        crate::setup::project_file_in_spec(ProjectConfig::project_root_spec(found)) == found,
{
    reveal_strlit("/");
    let suffix = "/"@ + PROJECT_FILE@;
    let dir = found.take(found.len() - suffix.len());
    assert(found =~= dir + found.skip(found.len() - suffix.len()));
    if dir.len() == 0 {
        assert(crate::setup::project_file_in_spec("/"@) =~= "/"@ + PROJECT_FILE@);
        assert(found =~= suffix);
    } else {
        assert(crate::setup::project_file_in_spec(dir) =~= dir + suffix);
    }
}
} // verus!
