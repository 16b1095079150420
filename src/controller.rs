//! The screen controller: which screen is shown, and how commands of the
//! user move between screens and change the catalog.
use vstd::prelude::*;
use crate::decimal::digits_only;
use crate::state::{built_from, ProjectPrimitive, Projects};

verus! {

/// The screen that is shown.
pub enum Screen {
    /// The list of recent projects and the actions.
    ProjectManager,
    /// The "New Project" form, with what has been entered so far.
    NewProject(ProjectPrimitive),
}

/// Which dimension text of the "New Project" form was edited.
#[derive(PartialEq, Eq, Structural, Clone, Copy, Debug)]
pub enum DimensionField {
    Width,
    Height,
}

/// What the user asked for.
pub enum Command {
    NewProjectRequested,
    OpenProjectRequested,
    EditProjectRequested(usize),
    QuitRequested,
    /// The form was confirmed. The shell reads the project's path and hands
    /// over its text, or `None` where it could not be read.
    NewProjectConfirmed(Option<String>),
    NewProjectCancelled,
    DimensionTextChanged(DimensionField),
}

/// What the shell does after a command.
#[derive(PartialEq, Eq, Structural, Clone, Copy, Debug)]
pub enum Reply {
    /// Keep running.
    Continue,
    /// Close the window and end the process.
    Close,
}

/// The form as it opens: empty texts, a 20 by 20 stage, in feet.
pub open spec fn is_blank(p: ProjectPrimitive) -> bool {
    &&& p.name@.len() == 0
    &&& p.venue@.len() == 0
    &&& p.path@.len() == 0
    &&& p.width_text@ == seq!['2', '0']
    &&& p.height_text@ == seq!['2', '0']
    &&& p.unit_text@ == seq!['f', 't']
}

/// `q` is the form `p` after its `field` text was cleared of non-digits.
pub open spec fn sanitized(q: ProjectPrimitive, p: ProjectPrimitive, field: DimensionField) -> bool {
    &&& q.name == p.name
    &&& q.venue == p.venue
    &&& q.path == p.path
    &&& q.unit_text == p.unit_text
    &&& match field {
        DimensionField::Width => q.width_text@ == digits_only(p.width_text@) && q.height_text
            == p.height_text,
        DimensionField::Height => q.height_text@ == digits_only(p.height_text@) && q.width_text
            == p.width_text,
    }
}

/// The application: the screen shown and the catalog of projects.
pub struct Beamline {
    pub screen: Screen,
    pub projects: Projects,
}

impl Beamline {
    /// Starts on the project manager with the catalog `projects`.
    pub fn new(projects: Projects) -> (r: Beamline)
        ensures
            r.screen is ProjectManager,
            r.projects == projects,
    {
        Beamline { screen: Screen::ProjectManager, projects }
    }

    /// Carries out `cmd` on the screen shown.
    ///
    /// From the project manager, `NewProjectRequested` opens a blank form and
    /// `QuitRequested` asks to close; every other command changes nothing. On
    /// the form, `NewProjectCancelled` drops it, `NewProjectConfirmed` builds
    /// the project, appends it to the catalog and goes back to the project
    /// manager, and `DimensionTextChanged` clears that text of non-digits;
    /// every other command changes nothing.
    pub fn handle(&mut self, cmd: Command) -> (r: Reply)
        ensures
            r == (if old(self).screen is ProjectManager && cmd is QuitRequested {
                Reply::Close
            } else {
                Reply::Continue
            }),
            match (old(self).screen, cmd) {
                (Screen::ProjectManager, Command::NewProjectRequested) => {
                    &&& final(self).screen matches Screen::NewProject(p) && is_blank(p)
                    &&& final(self).projects == old(self).projects
                },
                (Screen::NewProject(_), Command::NewProjectCancelled) => {
                    &&& final(self).screen is ProjectManager
                    &&& final(self).projects == old(self).projects
                },
                (Screen::NewProject(p), Command::NewProjectConfirmed(doc)) => {
                    &&& final(self).screen is ProjectManager
                    &&& final(self).projects.projects@.len() == old(self).projects.projects@.len() + 1
                    &&& final(self).projects.projects@.drop_last()
                        == old(self).projects.projects@
                    &&& built_from(
                        final(self).projects.projects@.last(),
                        p,
                        match doc {
                            Some(d) => Some(d@),
                            None => None,
                        },
                    )
                },
                (Screen::NewProject(p), Command::DimensionTextChanged(field)) => {
                    &&& final(self).screen matches Screen::NewProject(q) && sanitized(q, p, field)
                    &&& final(self).projects == old(self).projects
                },
                _ => {
                    &&& final(self).screen == old(self).screen
                    &&& final(self).projects == old(self).projects
                },
            },
    {
        let mut shown = Screen::ProjectManager;
        core::mem::swap(&mut self.screen, &mut shown);
        match shown {
            Screen::ProjectManager => {
                match cmd {
                    Command::NewProjectRequested => {
                        self.screen = Screen::NewProject(
                            ProjectPrimitive::new_blank_for_project_creator(),
                        );
                        Reply::Continue
                    },
                    Command::QuitRequested => Reply::Close,
                    _ => Reply::Continue,
                }
            },
            Screen::NewProject(mut p) => {
                match cmd {
                    Command::NewProjectCancelled => Reply::Continue,
                    Command::NewProjectConfirmed(doc) => {
                        match p.try_build(doc) {
                            Ok(project) => {
                                self.projects.append(project);
                            },
                            Err(_) => {},
                        }
                        Reply::Continue
                    },
                    Command::DimensionTextChanged(field) => {
                        match field {
                            DimensionField::Width => p.sanitize_width(),
                            DimensionField::Height => p.sanitize_height(),
                        }
                        self.screen = Screen::NewProject(p);
                        Reply::Continue
                    },
                    _ => {
                        self.screen = Screen::NewProject(p);
                        Reply::Continue
                    },
                }
            },
        }
    }
}

} // verus!
