//! Small interface-state helpers: a tab strip with a wrapping index, a list
//! with a movable selection, and a plain-value display record for one disk.

use vstd::prelude::*;

use crate::disk::DiskType;

verus! {

/// A fixed set of titles with one selected index that wraps around.
pub struct TabsState {
    pub titles: Vec<String>,
    pub index: usize,
}

impl TabsState {
    /// The index stays inside the non-empty title list.
    pub open spec fn wf(&self) -> bool {
        self.titles@.len() > 0 && self.index < self.titles@.len()
    }

    /// A tab strip over the given titles, starting at the first.
    pub fn new(titles: Vec<String>) -> (r: TabsState)
        requires
            titles@.len() > 0,
        ensures
            r.titles@ == titles@,
            r.index == 0,
            r.wf(),
    {
        TabsState { titles, index: 0 }
    }

    /// Moves one tab forward, wrapping to the first after the last.
    pub fn next(&mut self)
        requires
            old(self).wf(),
        ensures
            *final(self) == (TabsState {
                index: ((old(self).index + 1) % (old(self).titles@.len() as int)) as usize,
                ..*old(self)
            }),
            final(self).wf(),
    {
        let n = self.titles.len();
        self.index = (self.index + 1) % n;
    }

    /// Moves one tab back, wrapping to the last before the first.
    pub fn previous(&mut self)
        requires
            old(self).wf(),
        ensures
            *final(self) == (TabsState {
                index: (if old(self).index > 0 {
                    (old(self).index - 1) as usize
                } else {
                    (old(self).titles@.len() - 1) as usize
                }),
                ..*old(self)
            }),
            final(self).wf(),
    {
        if self.index > 0 {
            self.index = self.index - 1;
        } else {
            self.index = self.titles.len() - 1;
        }
    }
}

/// A list of items with an optional selection.
pub struct StatefulList<T> {
    pub selected: Option<usize>,
    pub items: Vec<T>,
}

/// A selection, when present, points into the list.
pub open spec fn list_wf<T>(l: StatefulList<T>) -> bool {
    match l.selected {
        Some(i) => i < l.items@.len(),
        None => true,
    }
}

impl<T> StatefulList<T> {
    /// An empty list with nothing selected.
    pub fn new() -> (r: StatefulList<T>)
        ensures
            r.items@.len() == 0,
            r.selected is None,
            list_wf(r),
    {
        StatefulList { selected: None, items: Vec::new() }
    }

    /// A list over the given items with nothing selected.
    pub fn with_items(items: Vec<T>) -> (r: StatefulList<T>)
        ensures
            r.items@ == items@,
            r.selected is None,
            list_wf(r),
    {
        StatefulList { selected: None, items }
    }

    /// Moves the selection one item down, wrapping to the top; selects the
    /// first item when nothing is selected.  An empty list stays unselected.
    pub fn next(&mut self)
        requires
            list_wf(*old(self)),
        ensures
            list_wf(*final(self)),
            old(self).items@.len() == 0 ==> *final(self) == *old(self),
            old(self).items@.len() > 0 ==> *final(self) == (StatefulList {
                selected: Some(
                    match old(self).selected {
                        Some(i) => if i + 1 >= old(self).items@.len() {
                            0usize
                        } else {
                            (i + 1) as usize
                        },
                        None => 0usize,
                    },
                ),
                ..*old(self)
            }),
    {
        if self.items.len() == 0 {
            return ;
        }
        let i = match self.selected {
            Some(i) => if i >= self.items.len() - 1 {
                0
            } else {
                i + 1
            },
            None => 0,
        };
        self.selected = Some(i);
    }

    /// Moves the selection one item up, wrapping to the bottom; selects the
    /// first item when nothing is selected.  An empty list stays unselected.
    pub fn previous(&mut self)
        requires
            list_wf(*old(self)),
        ensures
            list_wf(*final(self)),
            old(self).items@.len() == 0 ==> *final(self) == *old(self),
            old(self).items@.len() > 0 ==> *final(self) == (StatefulList {
                selected: Some(
                    match old(self).selected {
                        Some(i) => if i == 0 {
                            (old(self).items@.len() - 1) as usize
                        } else {
                            (i - 1) as usize
                        },
                        None => 0usize,
                    },
                ),
                ..*old(self)
            }),
    {
        if self.items.len() == 0 {
            return ;
        }
        let i = match self.selected {
            Some(i) => if i == 0 {
                self.items.len() - 1
            } else {
                i - 1
            },
            None => 0,
        };
        self.selected = Some(i);
    }

    /// Clears the selection.
    pub fn unselect(&mut self)
        ensures
            *final(self) == (StatefulList { selected: None::<usize>, ..*old(self) }),
            list_wf(*final(self)),
    {
        self.selected = None;
    }
}

/// Display metadata for one drive, as the renderer consumes it.
pub struct DiskDisplay {
    pub name: String,
    pub disk_type: DiskType,
    pub file_system: String,
    pub mount_point: String,
    pub total_space: u64,
    pub available_space: u64,
}

impl DiskDisplay {
    /// Bundles the displayed attributes of one drive.
    pub fn new(
        name: String,
        disk_type: DiskType,
        file_system: String,
        mount_point: String,
        total_space: u64,
        available_space: u64,
    ) -> (r: DiskDisplay)
        ensures
            r.name@ == name@,
            r.disk_type == disk_type,
            r.file_system@ == file_system@,
            r.mount_point@ == mount_point@,
            r.total_space == total_space,
            r.available_space == available_space,
    {
        DiskDisplay { name, disk_type, file_system, mount_point, total_space, available_space }
    }
}

} // verus!
