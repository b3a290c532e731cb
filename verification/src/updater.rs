//! Changes to what an organizer may change of an application: its status,
//! whether it is flagged, and the notes.

use crate::application::{Application, ApplicationStatus, ApplicationView};
use crate::database::{Database, DatabaseView};
use crate::table::Key;
use crate::text::{copy_opt_text, opt_text, views};
use vstd::prelude::*;

verus! {

/// One column of an application and the value to write into it.
#[derive(Debug, PartialEq, Eq)]
pub enum Assignment {
    Status(ApplicationStatus),
    Flagged(bool),
    Notes(String),
}

/// What an [`Assignment`] holds, with the notes as their characters.
pub enum AssignmentView {
    Status(ApplicationStatus),
    Flagged(bool),
    Notes(Seq<char>),
}

impl View for Assignment {
    type V = AssignmentView;

    open spec fn view(&self) -> AssignmentView {
        match self {
            Assignment::Status(status) => AssignmentView::Status(*status),
            Assignment::Flagged(flagged) => AssignmentView::Flagged(*flagged),
            Assignment::Notes(notes) => AssignmentView::Notes(notes@),
        }
    }
}

/// The name of the column that an assignment writes.
pub open spec fn column_of(assignment: AssignmentView) -> Seq<char> {
    match assignment {
        AssignmentView::Status(_) => "status"@,
        AssignmentView::Flagged(_) => "flagged"@,
        AssignmentView::Notes(_) => "notes"@,
    }
}

/// An application after one assignment.
pub open spec fn assigned(application: ApplicationView, assignment: AssignmentView) -> ApplicationView {
    match assignment {
        AssignmentView::Status(status) => ApplicationView { status, ..application },
        AssignmentView::Flagged(flagged) => ApplicationView { flagged, ..application },
        AssignmentView::Notes(notes) => ApplicationView { notes, ..application },
    }
}

/// An application after a list of assignments, made from the first on.
pub open spec fn assigned_all(application: ApplicationView, assignments: Seq<AssignmentView>) -> ApplicationView
    decreases assignments.len(),
{
    if assignments.len() == 0 {
        application
    } else {
        assigned(assigned_all(application, assignments.drop_last()), assignments.last())
    }
}

/// The assignments of an update: one for each value that was supplied, the
/// status first, the notes last.
pub open spec fn assignments_of(
    status: Option<ApplicationStatus>,
    flagged: Option<bool>,
    notes: Option<Seq<char>>,
) -> Seq<AssignmentView> {
    let first = match status {
        Some(status) => Seq::empty().push(AssignmentView::Status(status)),
        None => Seq::empty(),
    };
    let second = match flagged {
        Some(flagged) => first.push(AssignmentView::Flagged(flagged)),
        None => first,
    };
    match notes {
        Some(notes) => second.push(AssignmentView::Notes(notes)),
        None => second,
    }
}

/// An application with each supplied value in place of its own, and all
/// else as it was.
pub open spec fn revised(
    application: ApplicationView,
    status: Option<ApplicationStatus>,
    flagged: Option<bool>,
    notes: Option<Seq<char>>,
) -> ApplicationView {
    ApplicationView {
        status: match status {
            Some(status) => status,
            None => application.status,
        },
        flagged: match flagged {
            Some(flagged) => flagged,
            None => application.flagged,
        },
        notes: match notes {
            Some(notes) => notes,
            None => application.notes,
        },
        ..application
    }
}

/// The applications of a store after an update of the one under a key:
/// where none is there, and where nothing was supplied, nothing is written.
pub open spec fn revised_table(
    applications: Map<Key, ApplicationView>,
    key: Key,
    status: Option<ApplicationStatus>,
    flagged: Option<bool>,
    notes: Option<Seq<char>>,
) -> Map<Key, ApplicationView> {
    if applications.contains_key(key) && (status is Some || flagged is Some || notes is Some) {
        applications.insert(key, revised(applications[key], status, flagged, notes))
    } else {
        applications
    }
}

proof fn lemma_assigned_last(
    application: ApplicationView,
    assignments: Seq<AssignmentView>,
    last: AssignmentView,
)
    ensures
        assigned_all(application, assignments.push(last)) == assigned(
            assigned_all(application, assignments),
            last,
        ),
{
    assert(assignments.push(last).drop_last() =~= assignments);
}

/// Making the assignments of an update one by one gives the revised
/// application.
pub proof fn lemma_assignments_revise(
    application: ApplicationView,
    status: Option<ApplicationStatus>,
    flagged: Option<bool>,
    notes: Option<Seq<char>>,
)
    ensures
        assigned_all(application, assignments_of(status, flagged, notes)) == revised(
            application,
            status,
            flagged,
            notes,
        ),
{
    let none = Seq::<AssignmentView>::empty();
    let first = match status {
        Some(status) => none.push(AssignmentView::Status(status)),
        None => none,
    };
    let second = match flagged {
        Some(flagged) => first.push(AssignmentView::Flagged(flagged)),
        None => first,
    };
    assert(assigned_all(application, none) == application);
    if let Some(status) = status {
        lemma_assigned_last(application, none, AssignmentView::Status(status));
    }
    assert(assigned_all(application, first) == revised(application, status, None, None));
    if let Some(flagged) = flagged {
        lemma_assigned_last(application, first, AssignmentView::Flagged(flagged));
    }
    assert(assigned_all(application, second) == revised(application, status, flagged, None));
    if let Some(notes) = notes {
        lemma_assigned_last(application, second, AssignmentView::Notes(notes));
    }
}

/// The columns to write and their values: one for each value that is
/// supplied, and no other, the status first, the notes last.
pub fn assignments_for(
    status: Option<ApplicationStatus>,
    flagged: Option<bool>,
    notes: Option<String>,
) -> (list: Vec<Assignment>)
    ensures
        views(list@) == assignments_of(status, flagged, opt_text(notes)),
{
    let mut list: Vec<Assignment> = Vec::new();
    if let Some(status) = status {
        list.push(Assignment::Status(status));
    }
    if let Some(flagged) = flagged {
        list.push(Assignment::Flagged(flagged));
    }
    if let Some(notes) = notes {
        list.push(Assignment::Notes(notes));
    }
    assert(views(list@) =~= assignments_of(status, flagged, opt_text(notes)));
    list
}

impl Assignment {
    /// The name of the column that the assignment writes.
    pub fn column(&self) -> (name: &'static str)
        ensures
            name@ == column_of(self@),
    {
        match self {
            Assignment::Status(_) => "status",
            Assignment::Flagged(_) => "flagged",
            Assignment::Notes(_) => "notes",
        }
    }
}

impl Application {
    /// Update the application's fields
    pub fn update(&mut self) -> (updater: ApplicationUpdater<'_>)
        ensures
            *updater.application == *old(self),
            *final(updater.application) == *final(self),
            updater.status is None,
            updater.flagged is None,
            updater.notes is None,
    {
        ApplicationUpdater::new(self)
    }

    /// Writes each value of a list into its column, from the first on.
    pub fn assign_all(&mut self, assignments: &Vec<Assignment>)
        ensures
            final(self)@ == assigned_all(old(self)@, views(assignments@)),
            final(self)@.event == old(self)@.event,
            final(self)@.participant_id == old(self)@.participant_id,
    {
        let ghost list = views(assignments@);
        let mut i: usize = 0;
        while i < assignments.len()
            invariant
                i <= assignments.len(),
                list == views(assignments@),
                self@ == assigned_all(old(self)@, list.take(i as int)),
                self@.event == old(self)@.event,
                self@.participant_id == old(self)@.participant_id,
            decreases assignments.len() - i,
        {
            self.assign(&assignments[i]);
            proof {
                assert(list.take(i + 1).drop_last() == list.take(i as int));
            }
            i += 1;
        }
        proof {
            assert(list.take(i as int) == list);
        }
    }

    /// Writes one value into its column.
    pub fn assign(&mut self, assignment: &Assignment)
        ensures
            final(self)@ == assigned(old(self)@, assignment@),
    {
        match assignment {
            Assignment::Status(status) => {
                self.status = *status;
            },
            Assignment::Flagged(flagged) => {
                self.flagged = *flagged;
            },
            Assignment::Notes(notes) => {
                self.notes = notes.clone();
            },
        }
    }
}

/// Handles updating an application
pub struct ApplicationUpdater<'a> {
    /// The application to update
    pub application: &'a mut Application,
    /// The status to give it, if any
    pub status: Option<ApplicationStatus>,
    /// Whether to flag it, if that is to change
    pub flagged: Option<bool>,
    /// The notes to give it, if any
    pub notes: Option<String>,
}

impl<'m> ApplicationUpdater<'m> {
    fn new(application: &'m mut Application) -> (updater: ApplicationUpdater<'m>)
        ensures
            *updater.application == *old(application),
            *final(updater.application) == *final(application),
            updater.status is None,
            updater.flagged is None,
            updater.notes is None,
    {
        Self { application, status: None, flagged: None, notes: None }
    }

    /// Update the status
    pub fn status(self, status: ApplicationStatus) -> (updater: Self)
        ensures
            updater == (ApplicationUpdater { status: Some(status), ..self }),
    {
        let mut updater = self;
        updater.status = Some(status);
        updater
    }

    /// Directly set the status
    pub fn override_status(self, status: Option<ApplicationStatus>) -> (updater: Self)
        ensures
            updater == (ApplicationUpdater { status, ..self }),
    {
        let mut updater = self;
        updater.status = status;
        updater
    }

    /// Update the flagged state
    pub fn flagged(self, flagged: bool) -> (updater: Self)
        ensures
            updater == (ApplicationUpdater { flagged: Some(flagged), ..self }),
    {
        let mut updater = self;
        updater.flagged = Some(flagged);
        updater
    }

    /// Directly set the flagged state
    pub fn override_flagged(self, flagged: Option<bool>) -> (updater: Self)
        ensures
            updater == (ApplicationUpdater { flagged, ..self }),
    {
        let mut updater = self;
        updater.flagged = flagged;
        updater
    }

    /// Update the notes
    pub fn notes(self, notes: String) -> (updater: Self)
        ensures
            updater == (ApplicationUpdater { notes: Some(notes), ..self }),
    {
        let mut updater = self;
        updater.notes = Some(notes);
        updater
    }

    /// Directly set the notes
    pub fn override_notes(self, notes: Option<String>) -> (updater: Self)
        ensures
            updater == (ApplicationUpdater { notes, ..self }),
    {
        let mut updater = self;
        updater.notes = notes;
        updater
    }

    /// The columns to write and their values: one for each value that was
    /// supplied, and no other.
    pub fn assignments(&self) -> (list: Vec<Assignment>)
        ensures
            views(list@) == assignments_of(
                self.status,
                self.flagged,
                opt_text(self.notes),
            ),
    {
        assignments_for(self.status, self.flagged, copy_opt_text(&self.notes))
    }

    /// Perform the update: write the supplied values into the stored
    /// application, if it is there, and into the application at hand.
    /// Where nothing was supplied, nothing is written.
    pub fn save(self, db: &mut Database)
        ensures
            final(self.application)@ == revised(
                old(self.application)@,
                self.status,
                self.flagged,
                opt_text(self.notes),
            ),
            final(db)@ == (DatabaseView {
                applications: revised_table(
                    old(db)@.applications,
                    (old(self.application)@.event, old(self.application)@.participant_id),
                    self.status,
                    self.flagged,
                    opt_text(self.notes),
                ),
                ..old(db)@
            }),
    {
        if self.status.is_none() && self.flagged.is_none() && self.notes.is_none() {
            return ;
        }
        let assignments = self.assignments();
        let application = self.application;
        let stored = match db.applications.get(application.event.as_str(), application.participant_id) {
            Some(row) => Some(row.clone()),
            None => None,
        };
        if let Some(row) = stored {
            let mut row = row;
            row.assign_all(&assignments);
            db.applications.put(row);
        }
        application.assign_all(&assignments);
        proof {
            let key = (old(self.application)@.event, old(self.application)@.participant_id);
            lemma_assignments_revise(
                old(self.application)@,
                self.status,
                self.flagged,
                opt_text(self.notes),
            );
            if old(db)@.applications.contains_key(key) {
                lemma_assignments_revise(
                    old(db)@.applications[key],
                    self.status,
                    self.flagged,
                    opt_text(self.notes),
                );
            }
        }
    }
}

} // verus!
