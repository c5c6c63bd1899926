//! The wizard state machine.
//!
//! `App` owns the navigation among the wizard's screens, the drive and
//! method selections, and the `SanitizationJob` once the operator confirms.
//! Screens are the seven stations of the tool, by index: drive selection
//! `0`, method selection `1`, confirmation `2`, deletion `3`, verification
//! `4`, completion `5` and error `6`.  Backward navigation and quitting are
//! refused while a job is running; only an explicit cancel request reaches
//! the engine, which observes it within one chunk.

use vstd::prelude::*;

use crate::clone::CHUNK_SIZE;
use crate::disk::Disk;
use crate::engine::{job_wf, spec_progress_num, step_inv, Outcome, SanitizationJob};
use crate::device::DriveAccessor;
use crate::method::{clone_method, method_passes_wf, SanitizationMethod};
use crate::util::{list_wf, StatefulList, TabsState};

verus! {

/// Abstract commands the renderer's input layer hands to the wizard.
#[derive(Clone, Copy, Debug, PartialEq, Eq, Structural)]
pub enum Command {
    Up,
    Down,
    Left,
    Right,
    Continue,
    Back,
    Cancel,
    Quit,
    Tick,
}

/// The whole state of the wizard.
pub struct App {
    /// Gates real device writes: destructive work stays simulated until this
    /// is explicitly switched off by the embedding program.
    pub debug_mode: bool,
    pub title: String,
    pub should_quit: bool,
    /// Mirrors whether the job is currently `Running`.
    pub is_deleting: bool,
    /// A pending cancellation request, handed to the engine on each step.
    pub cancel_requested: bool,
    /// The terminal outcome recorded when the wizard enters the error
    /// screen.
    pub stop_reason: Option<Outcome>,
    /// The running or finished sanitization, if any was started.
    pub job: Option<SanitizationJob>,
    pub drives: StatefulList<Disk>,
    pub deletion_methods: StatefulList<SanitizationMethod>,
    /// The confirmation toggle: negative at index `0`, affirmative at `1`.
    pub confirmation: TabsState,
    /// The screen strip; its index is the current screen.
    pub status: TabsState,
}

/// The selection after one step down a list of `len` items, wrapping to the
/// top: the first item from nothing, the next otherwise.
pub open spec fn spec_select_next(selected: Option<usize>, len: nat) -> Option<usize> {
    if len == 0 {
        selected
    } else {
        match selected {
            Some(i) => if i + 1 >= len {
                Some(0usize)
            } else {
                Some((i + 1) as usize)
            },
            None => Some(0usize),
        }
    }
}

/// The selection after one step up a list of `len` items, wrapping to the
/// bottom: the first item from nothing, the previous otherwise.
pub open spec fn spec_select_previous(selected: Option<usize>, len: nat) -> Option<usize> {
    if len == 0 {
        selected
    } else {
        match selected {
            Some(i) => if i == 0 {
                Some((len - 1) as usize)
            } else {
                Some((i - 1) as usize)
            },
            None => Some(0usize),
        }
    }
}

impl App {
    /// The job exists and is `Running`.
    pub open spec fn job_running(&self) -> bool {
        match self.job {
            Some(j) => j.outcome == Outcome::Running,
            None => false,
        }
    }

    /// The wizard's internal consistency: indexes in range, the deleting
    /// flag mirroring the job, a running job only on the deletion or
    /// verification screen, and selections present on every screen past the
    /// one that makes them.
    pub open spec fn wf(&self) -> bool {
        &&& self.status.wf()
        &&& self.status.titles@.len() == 7
        &&& self.confirmation.wf()
        &&& self.confirmation.titles@.len() == 2
        &&& list_wf(self.drives)
        &&& list_wf(self.deletion_methods)
        &&& (match self.job {
            Some(j) => job_wf(j),
            None => true,
        })
        &&& self.is_deleting == self.job_running()
        &&& (self.job_running() ==> self.status.index == 3 || self.status.index == 4)
        &&& (self.status.index >= 1 ==> self.drives.selected is Some)
        &&& (self.status.index >= 2 ==> self.deletion_methods.selected is Some)
    }

    /// The selected disk and method can make a job: a well-formed pass plan,
    /// a device with at least one byte, and a workload within the progress
    /// counters' range.
    pub open spec fn can_start(disk: Disk, method: SanitizationMethod) -> bool {
        &&& method_passes_wf(method.passes@)
        &&& disk.total_space > 0
        &&& method.passes@.len() * disk.total_space <= u64::MAX
    }

    /// A fresh wizard over the given drives and methods: drive selection
    /// screen, nothing selected, no job, quitting allowed.
    pub fn new(drives: Vec<Disk>, deletion_methods: Vec<SanitizationMethod>, title: String) -> (r:
        App)
        ensures
            r.wf(),
            r.debug_mode == true,
            r.title@ == title@,
            r.should_quit == false,
            r.is_deleting == false,
            r.cancel_requested == false,
            r.stop_reason is None,
            r.job is None,
            r.drives.items@ == drives@,
            r.drives.selected is None,
            r.deletion_methods.items@ == deletion_methods@,
            r.deletion_methods.selected is None,
            r.confirmation.index == 0,
            r.confirmation.titles@[0]@ == "<CANCEL>"@,
            r.confirmation.titles@[1]@ == "<DELETE>"@,
            r.status.index == 0,
            r.status.titles@[0]@ == "Select Drive"@,
            r.status.titles@[1]@ == "Select Deletion Method"@,
            r.status.titles@[2]@ == "Confirm"@,
            r.status.titles@[3]@ == "Deletion In progress"@,
            r.status.titles@[4]@ == "Verify in progress"@,
            r.status.titles@[5]@ == "Complete"@,
            r.status.titles@[6]@ == "Error"@,
    {
        let status_titles: Vec<String> = vec![
            "Select Drive".to_owned(),
            "Select Deletion Method".to_owned(),
            "Confirm".to_owned(),
            "Deletion In progress".to_owned(),
            "Verify in progress".to_owned(),
            "Complete".to_owned(),
            "Error".to_owned(),
        ];
        let confirmation_titles: Vec<String> = vec!["<CANCEL>".to_owned(), "<DELETE>".to_owned()];
        App {
            debug_mode: true,
            title,
            should_quit: false,
            is_deleting: false,
            cancel_requested: false,
            stop_reason: None,
            job: None,
            drives: StatefulList::with_items(drives),
            deletion_methods: StatefulList::with_items(deletion_methods),
            confirmation: TabsState::new(confirmation_titles),
            status: TabsState::new(status_titles),
        }
    }

    /// Moves the selection up in whichever list the current screen shows;
    /// anywhere else the command is ignored.
    pub fn on_up(&mut self)
        requires
            old(self).wf(),
        ensures
            final(self).wf(),
            old(self).status.index == 0 ==> *final(self) == (App {
                drives: (StatefulList {
                    selected: spec_select_previous(old(self).drives.selected, old(self).drives.items@.len()),
                    ..old(self).drives
                }),
                ..*old(self)
            }),
            old(self).status.index == 1 ==> *final(self) == (App {
                deletion_methods: (StatefulList {
                    selected: spec_select_previous(
                        old(self).deletion_methods.selected,
                        old(self).deletion_methods.items@.len(),
                    ),
                    ..old(self).deletion_methods
                }),
                ..*old(self)
            }),
            old(self).status.index >= 2 ==> *final(self) == *old(self),
    {
        match self.status.index {
            0 => self.drives.previous(),
            1 => self.deletion_methods.previous(),
            _ => {},
        }
    }

    /// Moves the selection down in whichever list the current screen shows;
    /// anywhere else the command is ignored.
    pub fn on_down(&mut self)
        requires
            old(self).wf(),
        ensures
            final(self).wf(),
            old(self).status.index == 0 ==> *final(self) == (App {
                drives: (StatefulList {
                    selected: spec_select_next(old(self).drives.selected, old(self).drives.items@.len()),
                    ..old(self).drives
                }),
                ..*old(self)
            }),
            old(self).status.index == 1 ==> *final(self) == (App {
                deletion_methods: (StatefulList {
                    selected: spec_select_next(
                        old(self).deletion_methods.selected,
                        old(self).deletion_methods.items@.len(),
                    ),
                    ..old(self).deletion_methods
                }),
                ..*old(self)
            }),
            old(self).status.index >= 2 ==> *final(self) == *old(self),
    {
        match self.status.index {
            0 => self.drives.next(),
            1 => self.deletion_methods.next(),
            _ => {},
        }
    }

    /// On the confirmation screen, toggles towards the negative option;
    /// elsewhere the command is ignored.  The toggle wraps between its two
    /// options.
    pub fn on_left(&mut self)
        requires
            old(self).wf(),
        ensures
            final(self).wf(),
            old(self).status.index != 2 ==> *final(self) == *old(self),
            old(self).status.index == 2 ==> *final(self) == (App {
                confirmation: (TabsState {
                    index: (if old(self).confirmation.index == 0 {
                        1usize
                    } else {
                        0usize
                    }),
                    ..old(self).confirmation
                }),
                ..*old(self)
            }),
    {
        if self.status.index == 2 {
            self.confirmation.previous();
        }
    }

    /// On the confirmation screen, toggles towards the affirmative option;
    /// elsewhere the command is ignored.
    pub fn on_right(&mut self)
        requires
            old(self).wf(),
        ensures
            final(self).wf(),
            old(self).status.index != 2 ==> *final(self) == *old(self),
            old(self).status.index == 2 ==> *final(self) == (App {
                confirmation: (TabsState {
                    index: (if old(self).confirmation.index == 0 {
                        1usize
                    } else {
                        0usize
                    }),
                    ..old(self).confirmation
                }),
                ..*old(self)
            }),
    {
        if self.status.index == 2 {
            self.confirmation.next();
        }
    }

    /// The "continue" command.
    ///
    /// From drive selection it advances only with a drive selected, and from
    /// method selection only with a method selected; with nothing selected
    /// the wizard stays put.  From confirmation with the toggle on the
    /// negative option it returns to method selection without creating a
    /// job; on the affirmative option it creates a fresh `Running` job over
    /// the selected disk and method — first pass, nothing written — and
    /// enters the deletion screen.  On the deletion screen it merely
    /// re-affirms the running state; on the terminal screens it returns the
    /// wizard to drive selection for a fresh round.
    pub fn on_continue(&mut self)
        requires
            old(self).wf(),
        ensures
            final(self).wf(),
            old(self).status.index == 0 && old(self).drives.selected is None ==> *final(self)
                == *old(self),
            old(self).status.index == 0 && old(self).drives.selected is Some ==> *final(self)
                == (App { status: (TabsState { index: 1usize, ..old(self).status }), ..*old(self) }),
            old(self).status.index == 1 && old(self).deletion_methods.selected is None
                ==> *final(self) == *old(self),
            old(self).status.index == 1 && old(self).deletion_methods.selected is Some
                ==> *final(self) == (App {
                status: (TabsState { index: 2usize, ..old(self).status }),
                ..*old(self)
            }),
            old(self).status.index == 2 && old(self).confirmation.index == 0 ==> *final(self)
                == (App { status: (TabsState { index: 1usize, ..old(self).status }), ..*old(self) }),
            old(self).status.index == 2 && old(self).confirmation.index == 1 && !App::can_start(
                old(self).drives.items@[old(self).drives.selected->0 as int],
                old(self).deletion_methods.items@[old(self).deletion_methods.selected->0 as int],
            ) ==> *final(self) == *old(self),
            old(self).status.index == 2 && old(self).confirmation.index == 1 && App::can_start(
                old(self).drives.items@[old(self).drives.selected->0 as int],
                old(self).deletion_methods.items@[old(self).deletion_methods.selected->0 as int],
            ) ==> {
                let disk = old(self).drives.items@[old(self).drives.selected->0 as int];
                let method = old(self).deletion_methods.items@[old(
                    self,
                ).deletion_methods.selected->0 as int];
                &&& final(self).status == (TabsState { index: 3usize, ..old(self).status })
                &&& final(self).is_deleting == true
                &&& final(self).cancel_requested == false
                &&& final(self).job matches Some(j) && job_wf(j) && j.outcome == Outcome::Running
                    && j.current_pass_index == 0 && j.bytes_written_this_pass == 0
                    && spec_progress_num(j) == 0 && j.device_path@ == disk.name@ && j.device_size
                    == disk.total_space && j.chunk_size == CHUNK_SIZE && j.method.passes@
                    == method.passes@ && j.method.name@ == method.name@
                &&& final(self).drives == old(self).drives
                &&& final(self).deletion_methods == old(self).deletion_methods
                &&& final(self).confirmation == old(self).confirmation
                &&& final(self).title == old(self).title
                &&& final(self).debug_mode == old(self).debug_mode
                &&& final(self).should_quit == old(self).should_quit
                &&& final(self).stop_reason == old(self).stop_reason
            },
            old(self).status.index == 3 || old(self).status.index == 4 ==> *final(self)
                == *old(self),
            old(self).status.index >= 5 ==> {
                &&& final(self).status == (TabsState { index: 0usize, ..old(self).status })
                &&& final(self).job is None
                &&& final(self).is_deleting == false
                &&& final(self).cancel_requested == false
                &&& final(self).stop_reason is None
                &&& final(self).confirmation == (TabsState {
                    index: 0usize,
                    ..old(self).confirmation
                })
                &&& final(self).drives == old(self).drives
                &&& final(self).deletion_methods == old(self).deletion_methods
                &&& final(self).title == old(self).title
                &&& final(self).debug_mode == old(self).debug_mode
                &&& final(self).should_quit == old(self).should_quit
            },
    {
        match self.status.index {
            0 => {
                if self.drives.selected.is_some() {
                    self.status.next();
                }
            },
            1 => {
                if self.deletion_methods.selected.is_some() {
                    self.status.next();
                }
            },
            2 => {
                if self.confirmation.index == 1 {
                    let disk_index = match self.drives.selected {
                        Some(i) => i,
                        None => 0,
                    };
                    let method_index = match self.deletion_methods.selected {
                        Some(i) => i,
                        None => 0,
                    };
                    let disk = &self.drives.items[disk_index];
                    let method = clone_method(&self.deletion_methods.items[method_index]);
                    let path = disk.name.clone();
                    let size = disk.total_space;
                    match SanitizationJob::new(path, size, CHUNK_SIZE, method) {
                        Some(job) => {
                            self.job = Some(job);
                            self.is_deleting = true;
                            self.cancel_requested = false;
                            self.status.next();
                        },
                        None => {},
                    }
                } else {
                    self.status.previous();
                }
            },
            3 => {},
            4 => {},
            _ => {
                self.status.index = 0;
                self.job = None;
                self.is_deleting = false;
                self.cancel_requested = false;
                self.stop_reason = None;
                self.confirmation.index = 0;
            },
        }
    }

    /// The "back" command.
    ///
    /// Backward navigation walks confirmation to method selection to drive
    /// selection; it is a no-op on the first screen, on the terminal
    /// screens, and — always — while a job is running: a running engine is
    /// not interruptible by navigation, only by an explicit cancel.
    pub fn on_back(&mut self)
        requires
            old(self).wf(),
        ensures
            final(self).wf(),
            final(self).job == old(self).job,
            old(self).is_deleting ==> *final(self) == *old(self),
            old(self).status.index == 0 ==> *final(self) == *old(self),
            old(self).status.index == 1 ==> *final(self) == (App {
                status: (TabsState { index: 0usize, ..old(self).status }),
                ..*old(self)
            }),
            old(self).status.index == 2 ==> *final(self) == (App {
                status: (TabsState { index: 1usize, ..old(self).status }),
                is_deleting: false,
                ..*old(self)
            }),
            old(self).status.index == 3 && !old(self).is_deleting ==> *final(self) == (App {
                status: (TabsState { index: 2usize, ..old(self).status }),
                ..*old(self)
            }),
            old(self).status.index == 4 && !old(self).is_deleting ==> *final(self) == (App {
                status: (TabsState { index: 3usize, ..old(self).status }),
                ..*old(self)
            }),
            old(self).status.index >= 5 ==> *final(self) == *old(self),
    {
        match self.status.index {
            0 => {},
            1 => {
                self.status.previous();
            },
            2 => {
                self.status.previous();
                self.is_deleting = false;
            },
            3 => {
                if !self.is_deleting {
                    self.status.previous();
                }
            },
            4 => {
                if !self.is_deleting {
                    self.status.previous();
                }
            },
            _ => {},
        }
    }

    /// Requests to leave the program; refused while a job is running, so an
    /// operator cannot quit past a device in mid-wipe without deciding about
    /// it.
    pub fn quit(&mut self)
        requires
            old(self).wf(),
        ensures
            final(self).wf(),
            old(self).is_deleting ==> *final(self) == *old(self),
            !old(self).is_deleting ==> *final(self) == (App { should_quit: true, ..*old(self) }),
    {
        if !self.is_deleting {
            self.should_quit = true;
        }
    }

    /// Requests cancellation of the running job; the engine observes the
    /// request on its next step, within one chunk of I/O.  Without a running
    /// job there is nothing to cancel.
    pub fn cancel(&mut self)
        requires
            old(self).wf(),
        ensures
            final(self).wf(),
            old(self).is_deleting ==> *final(self) == (App {
                cancel_requested: true,
                ..*old(self)
            }),
            !old(self).is_deleting ==> *final(self) == *old(self),
    {
        if self.is_deleting {
            self.cancel_requested = true;
        }
    }

    /// Polls the job on the deletion and verification screens.
    ///
    /// A running job keeps the screen aligned with its phase; a succeeded
    /// job moves the wizard to the completion screen; a failed or cancelled
    /// one moves it to the error screen and records the outcome for display.
    pub fn on_tick(&mut self)
        requires
            old(self).wf(),
        ensures
            final(self).wf(),
            final(self).job == old(self).job,
            !(old(self).status.index == 3 || old(self).status.index == 4) ==> *final(self)
                == *old(self),
            (old(self).status.index == 3 || old(self).status.index == 4) && old(self).job is None
                ==> *final(self) == *old(self),
            (old(self).status.index == 3 || old(self).status.index == 4) ==> (old(
                self,
            ).job matches Some(j) ==> {
                &&& j.outcome == Outcome::Running ==> *final(self) == (App {
                    status: (TabsState {
                        index: (if j.phase == crate::engine::PassPhase::Verifying {
                            4usize
                        } else {
                            3usize
                        }),
                        ..old(self).status
                    }),
                    ..*old(self)
                })
                &&& j.outcome == Outcome::Succeeded ==> *final(self) == (App {
                    status: (TabsState { index: 5usize, ..old(self).status }),
                    is_deleting: false,
                    ..*old(self)
                })
                &&& (j.outcome matches Outcome::Failed(_)) || j.outcome == Outcome::Cancelled
                    ==> *final(self) == (App {
                    status: (TabsState { index: 6usize, ..old(self).status }),
                    is_deleting: false,
                    stop_reason: Some(j.outcome),
                    ..*old(self)
                })
            }),
    {
        if self.status.index == 3 || self.status.index == 4 {
            match &self.job {
                Some(j) => {
                    match j.outcome {
                        Outcome::Running => {
                            if matches!(j.phase, crate::engine::PassPhase::Verifying) {
                                self.status.index = 4;
                            } else {
                                self.status.index = 3;
                            }
                        },
                        Outcome::Succeeded => {
                            self.status.index = 5;
                            self.is_deleting = false;
                        },
                        Outcome::Failed(_) => {
                            self.stop_reason = Some(j.outcome);
                            self.status.index = 6;
                            self.is_deleting = false;
                        },
                        Outcome::Cancelled => {
                            self.stop_reason = Some(j.outcome);
                            self.status.index = 6;
                            self.is_deleting = false;
                        },
                    }
                },
                None => {},
            }
        }
    }

    /// The wizard's job, if any, agrees with the device it owns.
    pub open spec fn device_inv<D: DriveAccessor>(&self, dev: D) -> bool {
        match self.job {
            Some(j) => step_inv(j, dev),
            None => true,
        }
    }

    /// Performs one bounded chunk of engine work for the running job,
    /// handing the engine any pending cancellation request, then realigns
    /// the deleting flag with the job's outcome.
    ///
    /// Without a job, or with a finished one, nothing changes.  Progress
    /// never decreases, and the screens, selections and lists are left
    /// alone; only `on_tick` moves screens.
    pub fn step_job<D: DriveAccessor>(&mut self, dev: &mut D)
        requires
            old(self).wf(),
            old(self).device_inv(*old(dev)),
        ensures
            final(self).wf(),
            final(self).device_inv(*final(dev)),
            final(self).status == old(self).status,
            final(self).drives == old(self).drives,
            final(self).deletion_methods == old(self).deletion_methods,
            final(self).confirmation == old(self).confirmation,
            final(self).title == old(self).title,
            final(self).debug_mode == old(self).debug_mode,
            final(self).should_quit == old(self).should_quit,
            final(self).cancel_requested == old(self).cancel_requested,
            final(self).stop_reason == old(self).stop_reason,
            old(self).job is None ==> *final(self) == *old(self)
                && final(dev).contents() == old(dev).contents(),
            !old(self).job_running() ==> *final(self) == *old(self) && final(dev).contents()
                == old(dev).contents(),
            old(self).job matches Some(j0) ==> (final(self).job matches Some(j1) ==> {
                &&& spec_progress_num(j1) >= spec_progress_num(j0)
                &&& crate::engine::spec_progress_den(j1) == crate::engine::spec_progress_den(j0)
                &&& j1.method == j0.method
                &&& j1.device_path == j0.device_path
                &&& j1.device_size == j0.device_size
                &&& j1.chunk_size == j0.chunk_size
            }),
            old(self).job is Some ==> final(self).job is Some,
            old(self).job_running() && old(self).cancel_requested
                ==> (final(self).job matches Some(j1) ==> j1.outcome == Outcome::Cancelled),
            old(self).job_running() && !old(self).cancel_requested
                ==> (final(self).job matches Some(j1) ==> j1.outcome != Outcome::Cancelled),
    {
        let cancel = self.cancel_requested;
        match &mut self.job {
            Some(j) => {
                crate::engine::step(j, dev, cancel);
            },
            None => {},
        }
        let running = match &self.job {
            Some(j) => matches!(j.outcome, Outcome::Running),
            None => false,
        };
        self.is_deleting = running;
    }

    /// The running or finished job's progress as a byte fraction, or `None`
    /// before any job was started.
    pub fn progress_parts(&self) -> (r: Option<(u64, u64)>)
        requires
            self.wf(),
        ensures
            self.job is None ==> r is None,
            self.job matches Some(j) ==> r == Some(
                (spec_progress_num(j) as u64, crate::engine::spec_progress_den(j) as u64),
            ),
    {
        match &self.job {
            Some(j) => Some(j.progress_parts()),
            None => None,
        }
    }
}

/// Routes one abstract command to the wizard.
///
/// The safety rules survive the dispatch: a `Back` command while a job runs
/// changes nothing, and a `Quit` command while a job runs does not set the
/// quit flag.  `Cancel` only records the request; the engine sees it on the
/// next `step_job`.
pub fn handle_app(command: Command, app: &mut App)
    requires
        old(app).wf(),
    ensures
        final(app).wf(),
        command == Command::Back && old(app).is_deleting ==> *final(app) == *old(app),
        command == Command::Quit ==> final(app).should_quit == (old(app).should_quit
            || !old(app).is_deleting),
        final(app).job == old(app).job || command == Command::Continue,
{
    match command {
        Command::Up => app.on_up(),
        Command::Down => app.on_down(),
        Command::Left => app.on_left(),
        Command::Right => app.on_right(),
        Command::Continue => app.on_continue(),
        Command::Back => app.on_back(),
        Command::Cancel => app.cancel(),
        Command::Quit => app.quit(),
        Command::Tick => app.on_tick(),
    }
}

} // verus!
