use beamline::controller::{Beamline, Command, DimensionField, Reply, Screen};
use beamline::elements::{Dimensons, Measurement};
use beamline::state::{Projects, Settings};

fn start() -> Beamline {
    let settings = Settings::new(String::from("[projects]\nrecent = []"));
    Beamline::new(Projects::new(&settings, &vec![]).unwrap())
}

#[test]
fn starts_on_project_manager() {
    let app = start();
    assert!(matches!(app.screen, Screen::ProjectManager));
    assert_eq!(app.projects.len(), 0);
}

#[test]
fn new_project_happy_path() {
    let mut app = start();
    assert_eq!(app.handle(Command::NewProjectRequested), Reply::Continue);
    match &mut app.screen {
        Screen::NewProject(p) => {
            assert_eq!(p.width_text, "20");
            assert_eq!(p.height_text, "20");
            assert_eq!(p.unit_text, "ft");
            p.name = String::from("X");
            p.venue = String::from("Y");
            p.path = String::from("/tmp/x.beamline");
            p.width_text = String::from("abc30def");
        }
        Screen::ProjectManager => panic!("expected the new project form"),
    }
    app.handle(Command::DimensionTextChanged(DimensionField::Width));
    match &app.screen {
        Screen::NewProject(p) => assert_eq!(p.width_text, "30"),
        Screen::ProjectManager => panic!("expected the new project form"),
    }
    let before = app.projects.len();
    assert_eq!(app.handle(Command::NewProjectConfirmed(None)), Reply::Continue);
    assert_eq!(app.projects.len(), before + 1);
    let last = app.projects.get(app.projects.len() - 1);
    assert_eq!(last.dimensions, Dimensons { width: 30, height: 20, measurement: Measurement::Imperial });
    assert_eq!(last.name, "X");
    assert!(matches!(app.screen, Screen::ProjectManager));
}

#[test]
fn new_project_cancel() {
    let mut app = start();
    app.handle(Command::NewProjectRequested);
    if let Screen::NewProject(p) = &mut app.screen {
        p.name = String::from("Z");
        p.width_text = String::from("77");
    }
    assert_eq!(app.handle(Command::NewProjectCancelled), Reply::Continue);
    assert_eq!(app.projects.len(), 0);
    assert!(matches!(app.screen, Screen::ProjectManager));
}

#[test]
fn quit_closes_from_project_manager() {
    let mut app = start();
    assert_eq!(app.handle(Command::QuitRequested), Reply::Close);
}

#[test]
fn placeholders_change_nothing() {
    let mut app = start();
    assert_eq!(app.handle(Command::OpenProjectRequested), Reply::Continue);
    assert_eq!(app.handle(Command::EditProjectRequested(3)), Reply::Continue);
    assert_eq!(app.handle(Command::NewProjectCancelled), Reply::Continue);
    assert!(matches!(app.screen, Screen::ProjectManager));
    assert_eq!(app.projects.len(), 0);
}

#[test]
fn form_ignores_manager_commands() {
    let mut app = start();
    app.handle(Command::NewProjectRequested);
    assert_eq!(app.handle(Command::QuitRequested), Reply::Continue);
    assert_eq!(app.handle(Command::NewProjectRequested), Reply::Continue);
    assert!(matches!(app.screen, Screen::NewProject(_)));
}
