use magic_installer::config::Config;
use magic_installer::controller::{download_outcome, removal_outcome, Controller, Page, StepOutcome};
use magic_installer::error::InstallError;
use magic_installer::menu::{AppStatus, MenuEvent, MenuOutcome};
use magic_installer::plan::{action_plan, FileStatus, MenuAction, Step};
use magic_installer::transfer::{run_transfer, DownloadStatus, ReadOutcome};

fn config() -> Config {
    Config::from(
        "modpack_url=http://example.test/pack.zip\nmodloader_url=http://example.test/loader.zip\nmodloader_execname=loader.exe",
        "/tmp/mc/",
        false,
    )
    .unwrap()
}

fn s(x: &str) -> String {
    String::from(x)
}

#[test]
fn menu_actions_by_index() {
    assert_eq!(MenuAction::from_index(0), Some(MenuAction::InstallModpack));
    assert_eq!(MenuAction::from_index(1), Some(MenuAction::InstallModloader));
    assert_eq!(MenuAction::from_index(2), Some(MenuAction::RemoveFiles));
    assert_eq!(MenuAction::from_index(3), Some(MenuAction::Quit));
    assert_eq!(MenuAction::from_index(4), None);
}

#[test]
fn plans_of_the_actions() {
    let c = config();
    assert_eq!(
        action_plan(&c, MenuAction::InstallModloader),
        vec![
            Step::Download { destination: s("/tmp/mc/magic_installer/modloader.zip"), source: s("http://example.test/loader.zip") },
            Step::Extract { archive: s("/tmp/mc/magic_installer/modloader.zip"), destination: s("/tmp/mc/magic_installer/") },
            Step::Launch { executable: s("/tmp/mc/magic_installer/loader.exe") },
        ]
    );
    assert_eq!(
        action_plan(&c, MenuAction::RemoveFiles),
        vec![Step::Remove { path: s("/tmp/mc/mods") }, Step::Remove { path: s("/tmp/mc/config") }]
    );
    assert!(action_plan(&c, MenuAction::Quit).is_empty());
}

#[test]
fn install_modpack_end_to_end() {
    let c = config();
    let mut ctl = Controller::new(80, 24);
    assert_eq!(ctl.page(), Page::MainMenu);
    assert_eq!(ctl.on_menu_event(&c, MenuEvent::Confirm), MenuOutcome::Chosen(0));

    assert_eq!(ctl.page(), Page::RemovingFiles);
    assert_eq!(ctl.current_step(), Some(&Step::Remove { path: s("/tmp/mc/mods") }));
    ctl.finish_step(removal_outcome(FileStatus::FileDoesntExist, s("")));
    assert_eq!(ctl.current_step(), Some(&Step::Remove { path: s("/tmp/mc/config") }));
    ctl.finish_step(removal_outcome(FileStatus::FileDoesntExist, s("")));

    assert_eq!(ctl.page(), Page::Downloading);
    assert_eq!(
        ctl.current_step(),
        Some(&Step::Download { destination: s("/tmp/mc/magic_installer/modpack.zip"), source: s("http://example.test/pack.zip") })
    );
    let reports = run_transfer(Some("6000"), vec![ReadOutcome::Read(4096), ReadOutcome::Read(1904), ReadOutcome::Read(0)]);
    assert_eq!(reports.last(), Some(&DownloadStatus::Downloaded));
    for r in reports {
        if let Some(o) = download_outcome(r) {
            ctl.finish_step(o);
        }
    }

    assert_eq!(ctl.page(), Page::Extracting);
    assert_eq!(
        ctl.current_step(),
        Some(&Step::Extract { archive: s("/tmp/mc/magic_installer/modpack.zip"), destination: s("/tmp/mc/") })
    );
    ctl.finish_step(StepOutcome::Succeeded);
    assert_eq!(ctl.page(), Page::MainMenu);
    assert_eq!(ctl.current_step(), None);
    assert_eq!(ctl.last_error(), None);
    assert!(matches!(ctl.status(), AppStatus::Loop));
}

#[test]
fn removal_of_present_and_absent_directories() {
    let c = config();
    let mut ctl = Controller::new(80, 24);
    ctl.on_menu_event(&c, MenuEvent::Down);
    ctl.on_menu_event(&c, MenuEvent::Down);
    assert_eq!(ctl.on_menu_event(&c, MenuEvent::Confirm), MenuOutcome::Chosen(2));
    assert_eq!(removal_outcome(FileStatus::FileExists, s("")), StepOutcome::Succeeded);
    assert_eq!(removal_outcome(FileStatus::FileDoesntExist, s("")), StepOutcome::AlreadyAbsent);
    ctl.finish_step(removal_outcome(FileStatus::FileExists, s("")));
    assert_eq!(ctl.page(), Page::RemovingFiles);
    ctl.finish_step(removal_outcome(FileStatus::FileDoesntExist, s("")));
    assert_eq!(ctl.page(), Page::MainMenu);
    assert_eq!(ctl.last_error(), None);
    assert_eq!(ctl.menu().selected, 0);
}

#[test]
fn removal_failure_does_not_stop_the_batch() {
    let c = config();
    let mut ctl = Controller::new(80, 24);
    ctl.on_menu_event(&c, MenuEvent::Confirm);
    ctl.finish_step(removal_outcome(FileStatus::FileError, s("permission denied")));
    assert_eq!(ctl.last_error(), Some(&InstallError::Removal(s("permission denied"))));
    assert_eq!(ctl.current_step(), Some(&Step::Remove { path: s("/tmp/mc/config") }));
    ctl.finish_step(StepOutcome::Succeeded);
    assert_eq!(ctl.page(), Page::Downloading);
}

#[test]
fn download_failure_returns_to_menu() {
    let c = config();
    let mut ctl = Controller::new(80, 24);
    ctl.on_menu_event(&c, MenuEvent::Down);
    ctl.on_menu_event(&c, MenuEvent::Confirm);
    assert_eq!(ctl.page(), Page::Downloading);
    let err = InstallError::Network(s("connection refused"));
    assert_eq!(download_outcome(DownloadStatus::Downloading { written: 1, total: 2 }), None);
    ctl.finish_step(download_outcome(DownloadStatus::Error(err.clone())).unwrap());
    assert_eq!(ctl.page(), Page::MainMenu);
    assert_eq!(ctl.last_error(), Some(&err));
    assert!(matches!(ctl.status(), AppStatus::Loop));
}

#[test]
fn corrupt_archive_returns_to_menu() {
    let c = config();
    let mut ctl = Controller::new(80, 24);
    ctl.on_menu_event(&c, MenuEvent::Down);
    ctl.on_menu_event(&c, MenuEvent::Confirm);
    ctl.finish_step(StepOutcome::Succeeded);
    assert_eq!(ctl.page(), Page::Extracting);
    let err = InstallError::ArchiveOpen(s("invalid Zip archive"));
    ctl.finish_step(StepOutcome::Failed(err.clone()));
    assert_eq!(ctl.page(), Page::MainMenu);
    assert_eq!(ctl.last_error(), Some(&err));
}

#[test]
fn modloader_install_launches_last() {
    let c = config();
    let mut ctl = Controller::new(80, 24);
    ctl.on_menu_event(&c, MenuEvent::Down);
    ctl.on_menu_event(&c, MenuEvent::Confirm);
    ctl.finish_step(StepOutcome::Succeeded);
    ctl.finish_step(StepOutcome::Succeeded);
    assert_eq!(ctl.page(), Page::Launching);
    ctl.finish_step(StepOutcome::Failed(InstallError::Launch(s("not found"))));
    assert_eq!(ctl.page(), Page::MainMenu);
}

#[test]
fn quit_option_and_cancel_exit() {
    let c = config();
    let mut ctl = Controller::new(80, 24);
    ctl.on_menu_event(&c, MenuEvent::Up);
    assert_eq!(ctl.menu().selected, 3);
    assert_eq!(ctl.on_menu_event(&c, MenuEvent::Confirm), MenuOutcome::Chosen(3));
    assert_eq!(ctl.page(), Page::Exiting);
    assert!(matches!(ctl.status(), AppStatus::Exit));

    let mut ctl = Controller::new(80, 24);
    assert_eq!(ctl.on_menu_event(&c, MenuEvent::Cancel), MenuOutcome::Cancelled);
    assert_eq!(ctl.page(), Page::Exiting);
}

#[test]
fn resize_during_an_action_keeps_it() {
    let c = config();
    let mut ctl = Controller::new(80, 24);
    ctl.on_menu_event(&c, MenuEvent::Confirm);
    ctl.resize(100, 30);
    assert_eq!(ctl.page(), Page::RemovingFiles);
    assert_eq!(ctl.menu().width, 100);
    assert_eq!(ctl.menu().height, 30);
    assert_eq!(ctl.current_step(), Some(&Step::Remove { path: s("/tmp/mc/mods") }));
}
