use vstd::prelude::*;
use crate::config::Config;

verus! {

/// The number of options of the main menu.
pub const MENU_OPTION_COUNT: usize = 4;

/// What happened to a directory that was to be created or removed.
#[derive(Clone, Copy, Debug, PartialEq, Eq, Structural)]
pub enum FileStatus {
    /// It was there (and, for a removal, is now gone).
    FileExists,
    /// It was not there (for a removal: nothing to do).
    FileDoesntExist,
    /// The operation failed.
    FileError,
}

/// The actions of the main menu, in the order of its options.
#[derive(Clone, Copy, Debug, PartialEq, Eq, Structural)]
pub enum MenuAction {
    InstallModpack,
    InstallModloader,
    RemoveFiles,
    Quit,
}

/// The action of the menu option at `index`.
pub open spec fn action_at(index: int) -> Option<MenuAction> {
    if index == 0 {
        Some(MenuAction::InstallModpack)
    } else if index == 1 {
        Some(MenuAction::InstallModloader)
    } else if index == 2 {
        Some(MenuAction::RemoveFiles)
    } else if index == 3 {
        Some(MenuAction::Quit)
    } else {
        None
    }
}

impl MenuAction {
    /// The action of the option at `index`, if there is one.
    pub fn from_index(index: usize) -> (r: Option<MenuAction>)
        ensures
            r == action_at(index as int),
    {
        if index == 0 {
            Some(MenuAction::InstallModpack)
        } else if index == 1 {
            Some(MenuAction::InstallModloader)
        } else if index == 2 {
            Some(MenuAction::RemoveFiles)
        } else if index == 3 {
            Some(MenuAction::Quit)
        } else {
            None
        }
    }
}

/// One operation of an action.
#[derive(Clone, Debug, PartialEq, Eq)]
pub enum Step {
    /// Delete the directory at `path` and all it holds.
    Remove { path: String },
    /// Download `source` into the file `destination`.
    Download { destination: String, source: String },
    /// Extract the archive `archive` into the directory `destination`.
    Extract { archive: String, destination: String },
    /// Start the program `executable` without waiting for it.
    Launch { executable: String },
}

/// A step, with its paths as character sequences.
pub enum StepView {
    Remove(Seq<char>),
    Download(Seq<char>, Seq<char>),
    Extract(Seq<char>, Seq<char>),
    Launch(Seq<char>),
}

impl View for Step {
    type V = StepView;

    open spec fn view(&self) -> StepView {
        match self {
            Step::Remove { path } => StepView::Remove(path@),
            Step::Download { destination, source } => StepView::Download(destination@, source@),
            Step::Extract { archive, destination } => StepView::Extract(archive@, destination@),
            Step::Launch { executable } => StepView::Launch(executable@),
        }
    }
}

pub open spec fn step_views(s: Seq<Step>) -> Seq<StepView> {
    s.map_values(|x: Step| x@)
}

/// The directories under the game directory that a removal deletes, in order.
pub open spec fn removal_set() -> Seq<Seq<char>> {
    seq!["mods"@, "config"@]
}

/// The removal steps under `folder`.
pub open spec fn removal_steps(folder: Seq<char>) -> Seq<StepView> {
    removal_set().map_values(|d: Seq<char>| StepView::Remove(folder + d))
}

/// The steps of an action under the settings `c`.
pub open spec fn plan_of(c: Config, action: MenuAction) -> Seq<StepView> {
    let folder = c.minecraft_folder@;
    let staging = c.magic_installer_folder@;
    match action {
        MenuAction::InstallModpack => removal_steps(folder) + seq![
            StepView::Download(staging + "modpack.zip"@, c.modpack_url@),
            StepView::Extract(staging + "modpack.zip"@, folder),
        ],
        MenuAction::InstallModloader => seq![
            StepView::Download(staging + "modloader.zip"@, c.modloader_url@),
            StepView::Extract(staging + "modloader.zip"@, staging),
            StepView::Launch(staging + c.modloader_execname@),
        ],
        MenuAction::RemoveFiles => removal_steps(folder),
        MenuAction::Quit => seq![],
    }
}

fn joined(base: &String, name: &str) -> (r: String)
    ensures
        r@ == base@ + name@,
{
    let mut r = base.clone();
    r.append(name);
    r
}

fn push_removals(steps: &mut Vec<Step>, folder: &String)
    ensures
        step_views(final(steps)@) == step_views(old(steps)@) + removal_steps(folder@),
{
    let ghost start = step_views(steps@);
    steps.push(Step::Remove { path: joined(folder, "mods") });
    steps.push(Step::Remove { path: joined(folder, "config") });
    assert(step_views(steps@) =~= start + removal_steps(folder@));
}

/// The steps that an action runs, in order: installing the modpack removes
/// the old mod and configuration directories, downloads the modpack into
/// the staging directory and extracts it into the game directory;
/// installing the mod loader downloads and extracts its archive in the
/// staging directory and starts its installer; removing files deletes the
/// directories; quitting runs nothing.
pub fn action_plan(config: &Config, action: MenuAction) -> (r: Vec<Step>)
    ensures
        step_views(r@) == plan_of(*config, action),
{
    let mut steps: Vec<Step> = Vec::new();
    let ghost empty = step_views(steps@);
    assert(empty =~= Seq::<StepView>::empty());
    let folder = &config.minecraft_folder;
    let staging = &config.magic_installer_folder;
    match action {
        MenuAction::InstallModpack => {
            push_removals(&mut steps, folder);
            steps.push(Step::Download {
                destination: joined(staging, "modpack.zip"),
                source: config.modpack_url.clone(),
            });
            steps.push(Step::Extract {
                archive: joined(staging, "modpack.zip"),
                destination: folder.clone(),
            });
            assert(step_views(steps@) =~= plan_of(*config, action));
        },
        MenuAction::InstallModloader => {
            steps.push(Step::Download {
                destination: joined(staging, "modloader.zip"),
                source: config.modloader_url.clone(),
            });
            steps.push(Step::Extract {
                archive: joined(staging, "modloader.zip"),
                destination: staging.clone(),
            });
            steps.push(Step::Launch {
                executable: joined(staging, config.modloader_execname.as_str()),
            });
            assert(step_views(steps@) =~= plan_of(*config, action));
        },
        MenuAction::RemoveFiles => {
            push_removals(&mut steps, folder);
            assert(step_views(steps@) =~= plan_of(*config, action));
        },
        MenuAction::Quit => {},
    }
    steps
}

} // verus!
