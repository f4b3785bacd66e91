use vstd::prelude::*;
use crate::config::Config;
use crate::error::InstallError;
use crate::menu::{AppStatus, MenuEvent, MenuOutcome, MenuState};
use crate::plan::{action_at, action_plan, plan_of, step_views, FileStatus, MenuAction, Step, StepView, MENU_OPTION_COUNT};
use crate::transfer::DownloadStatus;

verus! {

/// The screen that the installer shows.
#[derive(Clone, Copy, Debug, PartialEq, Eq, Structural)]
pub enum Page {
    MainMenu,
    RemovingFiles,
    Downloading,
    Extracting,
    Launching,
    Exiting,
}

/// How a step ended.
#[derive(Clone, Debug, PartialEq, Eq)]
pub enum StepOutcome {
    /// It did its work.
    Succeeded,
    /// There was nothing to remove.
    AlreadyAbsent,
    /// It failed.
    Failed(InstallError),
}

/// The page that shows a step while it runs.
pub open spec fn page_of(s: StepView) -> Page {
    match s {
        StepView::Remove(_) => Page::RemovingFiles,
        StepView::Download(_, _) => Page::Downloading,
        StepView::Extract(_, _) => Page::Extracting,
        StepView::Launch(_) => Page::Launching,
    }
}

/// The step outcome that a final download report gives; none while the
/// download goes on.
pub fn download_outcome(status: DownloadStatus) -> (r: Option<StepOutcome>)
    ensures
        match status {
            DownloadStatus::Downloading { .. } => r is None,
            DownloadStatus::Downloaded => r == Some(StepOutcome::Succeeded),
            DownloadStatus::Error(e) => r == Some(StepOutcome::Failed(e)),
        },
{
    match status {
        DownloadStatus::Downloading { .. } => None,
        DownloadStatus::Downloaded => Some(StepOutcome::Succeeded),
        DownloadStatus::Error(e) => Some(StepOutcome::Failed(e)),
    }
}

/// The step outcome of one removal: a directory that was not there is no
/// failure, only nothing to do.
pub fn removal_outcome(status: FileStatus, message: String) -> (r: StepOutcome)
    ensures
        match status {
            FileStatus::FileExists => r == StepOutcome::Succeeded,
            FileStatus::FileDoesntExist => r == StepOutcome::AlreadyAbsent,
            FileStatus::FileError => r == StepOutcome::Failed(InstallError::Removal(message)),
        },
{
    match status {
        FileStatus::FileExists => StepOutcome::Succeeded,
        FileStatus::FileDoesntExist => StepOutcome::AlreadyAbsent,
        FileStatus::FileError => StepOutcome::Failed(InstallError::Removal(message)),
    }
}

/// The page controller: the main menu, and the steps of the action that
/// runs, if any. Steps run one at a time, in order; a failure of any step
/// but a removal ends the action; after an action the main menu returns.
pub struct Controller {
    menu: MenuState,
    steps: Vec<Step>,
    position: usize,
    exiting: bool,
    last_error: Option<InstallError>,
}

impl Controller {
    pub closed spec fn menu_view(&self) -> MenuState {
        self.menu
    }

    /// The steps of the current (or last) action.
    pub closed spec fn plan(&self) -> Seq<StepView> {
        step_views(self.steps@)
    }

    /// How many steps of the plan are done (or skipped after a failure).
    pub closed spec fn position(&self) -> int {
        self.position as int
    }

    pub closed spec fn exiting(&self) -> bool {
        self.exiting
    }

    /// The last failure reported.
    pub closed spec fn error(&self) -> Option<InstallError> {
        self.last_error
    }

    pub closed spec fn wf(&self) -> bool {
        &&& self.menu.wf()
        &&& self.menu.option_count == MENU_OPTION_COUNT
        &&& self.position <= self.steps@.len()
    }

    pub open spec fn current_page(&self) -> Page {
        if self.exiting() {
            Page::Exiting
        } else if self.position() < self.plan().len() {
            page_of(self.plan()[self.position()])
        } else {
            Page::MainMenu
        }
    }

    /// A controller on the main menu, its first option selected.
    pub fn new(width: u16, height: u16) -> (r: Controller)
        ensures
            r.wf(),
            r.menu_view() == (MenuState { selected: 0, option_count: MENU_OPTION_COUNT, width, height }),
            r.plan().len() == 0,
            r.position() == 0,
            !r.exiting(),
            r.error() is None,
            r.current_page() == Page::MainMenu,
    {
        let r = Controller {
            menu: MenuState::new(MENU_OPTION_COUNT, width, height),
            steps: Vec::new(),
            position: 0,
            exiting: false,
            last_error: None,
        };
        assert(r.plan() =~= Seq::<StepView>::empty());
        r
    }

    /// The page to show.
    pub fn page(&self) -> (r: Page)
        requires
            self.wf(),
        ensures
            r == self.current_page(),
    {
        if self.exiting {
            Page::Exiting
        } else if self.position < self.steps.len() {
            let s = &self.steps[self.position];
            match s {
                Step::Remove { .. } => Page::RemovingFiles,
                Step::Download { .. } => Page::Downloading,
                Step::Extract { .. } => Page::Extracting,
                Step::Launch { .. } => Page::Launching,
            }
        } else {
            Page::MainMenu
        }
    }

    /// The menu's selection and dimensions.
    pub fn menu(&self) -> (r: MenuState)
        ensures
            r == self.menu_view(),
    {
        self.menu
    }

    /// The step to run now, if an action runs.
    pub fn current_step(&self) -> (r: Option<&Step>)
        requires
            self.wf(),
        ensures
            match r {
                Some(s) => !self.exiting() && self.position() < self.plan().len() && s@ == self.plan()[self.position()],
                None => self.exiting() || self.position() == self.plan().len(),
            },
    {
        if !self.exiting && self.position < self.steps.len() {
            Some(&self.steps[self.position])
        } else {
            None
        }
    }

    /// The last failure reported, if any.
    pub fn last_error(&self) -> (r: Option<&InstallError>)
        ensures
            match self.error() {
                Some(e) => r == Some(&e),
                None => r is None,
            },
    {
        match &self.last_error {
            Some(e) => Some(e),
            None => None,
        }
    }

    /// Whether the installer goes on or ends.
    pub fn status(&self) -> (r: AppStatus)
        ensures
            r == if self.exiting() { AppStatus::Exit } else { AppStatus::Loop },
    {
        if self.exiting {
            AppStatus::Exit
        } else {
            AppStatus::Loop
        }
    }

    /// Stores new terminal dimensions; the selection and the running action
    /// are kept.
    pub fn resize(&mut self, width: u16, height: u16)
        requires
            old(self).wf(),
        ensures
            final(self).wf(),
            final(self).menu_view() == (MenuState { width, height, ..old(self).menu_view() }),
            final(self).plan() == old(self).plan(),
            final(self).position() == old(self).position(),
            final(self).exiting() == old(self).exiting(),
            final(self).error() == old(self).error(),
    {
        self.menu.width = width;
        self.menu.height = height;
    }

    /// Reacts to an input event on the main menu. Choosing an option starts
    /// its action (quitting leaves), with the selection back on the first
    /// option for the menu that follows; cancelling leaves.
    pub fn on_menu_event(&mut self, config: &Config, event: MenuEvent) -> (r: MenuOutcome)
        requires
            old(self).wf(),
            old(self).current_page() == Page::MainMenu,
        ensures
            final(self).wf(),
            match r {
                MenuOutcome::Chosen(i) => {
                    &&& i == old(self).menu_view().selected
                    &&& event == MenuEvent::Confirm
                    &&& final(self).menu_view() == (MenuState { selected: 0, ..old(self).menu_view() })
                    &&& final(self).error() is None
                    &&& match action_at(i as int) {
                        Some(MenuAction::Quit) => final(self).exiting(),
                        Some(action) => {
                            &&& !final(self).exiting()
                            &&& final(self).position() == 0
                            &&& final(self).plan() == plan_of(*config, action)
                        },
                        None => false,
                    }
                },
                MenuOutcome::Cancelled => final(self).exiting(),
                _ => {
                    &&& !final(self).exiting()
                    &&& final(self).current_page() == Page::MainMenu
                    &&& final(self).error() == old(self).error()
                },
            },
            !(r is Chosen) ==> ({
                let m = old(self).menu_view();
                let n = final(self).menu_view();
                match event {
                    MenuEvent::Up => r == MenuOutcome::SelectionMoved && n.selected == (m.selected + m.option_count - 1) % (m.option_count as int)
                        && n.width == m.width && n.height == m.height,
                    MenuEvent::Down => r == MenuOutcome::SelectionMoved && n.selected == (m.selected + 1) % (m.option_count as int)
                        && n.width == m.width && n.height == m.height,
                    MenuEvent::Resize { width, height } => r == MenuOutcome::Resized && n == (MenuState { width, height, ..m }),
                    MenuEvent::Cancel => r == MenuOutcome::Cancelled && n == m,
                    MenuEvent::Other => r == MenuOutcome::Ignored && n == m,
                    MenuEvent::Confirm => false,
                }
            }),
    {
        let r = self.menu.handle(event);
        match r {
            MenuOutcome::Chosen(i) => {
                self.menu.selected = 0;
                self.last_error = None;
                match MenuAction::from_index(i) {
                    Some(MenuAction::Quit) => {
                        self.exiting = true;
                    },
                    Some(action) => {
                        self.steps = action_plan(config, action);
                        self.position = 0;
                    },
                    None => {},
                }
            },
            MenuOutcome::Cancelled => {
                self.exiting = true;
            },
            _ => {},
        }
        r
    }

    /// Takes the outcome of the current step. A removal's failure is kept
    /// and the next step runs; any other step's failure is kept and ends
    /// the action; otherwise the next step runs. The main menu returns after
    /// the last step.
    pub fn finish_step(&mut self, outcome: StepOutcome)
        requires
            old(self).wf(),
            !old(self).exiting(),
            old(self).position() < old(self).plan().len(),
        ensures
            final(self).wf(),
            final(self).menu_view() == old(self).menu_view(),
            final(self).plan() == old(self).plan(),
            !final(self).exiting(),
            match outcome {
                StepOutcome::Failed(e) => {
                    &&& final(self).error() == Some(e)
                    &&& final(self).position() == if old(self).plan()[old(self).position()] is Remove {
                        old(self).position() + 1
                    } else {
                        old(self).plan().len() as int
                    }
                },
                _ => {
                    &&& final(self).error() == old(self).error()
                    &&& final(self).position() == old(self).position() + 1
                },
            },
    {
        let n = self.steps.len();
        let removal = match &self.steps[self.position] {
            Step::Remove { .. } => true,
            _ => false,
        };
        match outcome {
            StepOutcome::Failed(e) => {
                self.last_error = Some(e);
                if removal {
                    self.position = self.position + 1;
                } else {
                    self.position = n;
                }
            },
            _ => {
                self.position = self.position + 1;
            },
        }
    }
}

} // verus!
