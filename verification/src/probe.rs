//! Probing for the vendor's shared libraries.
//!
//! Loading a library is the caller's work. Which file is tried next, and what
//! the probe comes to, is decided here from what the caller found so far.

use vstd::prelude::*;
use crate::driver::{DriverError, DriverErrorView, VendorShimDriver};
use crate::text::{join2, join3, string_views};

verus! {

/// What became of one candidate library.
#[derive(Debug, Clone, PartialEq, Eq)]
pub enum LibraryProbe {
    /// No such file in the vendor directory.
    Missing,
    /// The file at this path was loaded.
    Loaded(String),
    /// The file at this path failed to load, for this reason.
    Failed(String, String),
}

pub enum LibraryProbeView {
    Missing,
    Loaded(Seq<char>),
    Failed(Seq<char>, Seq<char>),
}

impl View for LibraryProbe {
    type V = LibraryProbeView;

    open spec fn view(&self) -> LibraryProbeView {
        match self {
            LibraryProbe::Missing => LibraryProbeView::Missing,
            LibraryProbe::Loaded(path) => LibraryProbeView::Loaded(path@),
            LibraryProbe::Failed(path, reason) => LibraryProbeView::Failed(path@, reason@),
        }
    }
}

/// The views of what became of the candidates, in order.
pub open spec fn probe_views(probed: Seq<LibraryProbe>) -> Seq<LibraryProbeView> {
    Seq::new(probed.len(), |i: int| probed[i]@)
}

/// The outcome of a probe that found something.
#[derive(Debug, Clone, PartialEq, Eq)]
pub struct ProbeReport {
    pub loaded_libraries: Vec<String>,
    pub read_only: bool,
}

pub struct ProbeReportView {
    pub loaded_libraries: Seq<Seq<char>>,
    pub read_only: bool,
}

impl View for ProbeReport {
    type V = ProbeReportView;

    open spec fn view(&self) -> ProbeReportView {
        ProbeReportView {
            loaded_libraries: string_views(self.loaded_libraries@),
            read_only: self.read_only,
        }
    }
}

/// What the caller of a probe does next.
#[derive(Debug, PartialEq, Eq)]
pub enum ProbeStep {
    /// Look for this file in the vendor directory, load it if it is there,
    /// and add what became of it to the list.
    Load(String),
    /// The probe is over.
    Done(Result<ProbeReport, DriverError>),
}

pub enum ProbeStepView {
    Load(Seq<char>),
    Done(Result<ProbeReportView, DriverErrorView>),
}

impl View for ProbeStep {
    type V = ProbeStepView;

    open spec fn view(&self) -> ProbeStepView {
        match self {
            ProbeStep::Load(file) => ProbeStepView::Load(file@),
            ProbeStep::Done(Ok(report)) => ProbeStepView::Done(Ok(report@)),
            ProbeStep::Done(Err(error)) => ProbeStepView::Done(Err(error@)),
        }
    }
}

/// The files that a probe looks for, in this order.
pub open spec fn candidate_libraries() -> Seq<Seq<char>> {
    seq!["device.so"@, "config.so"@, "supapi.so"@]
}

/// The index of the first candidate at or after `from` that failed to load,
/// or the number probed where none did.
pub open spec fn first_failed(probed: Seq<LibraryProbeView>, from: int) -> int
    decreases probed.len() - from,
{
    if from < 0 || from >= probed.len() {
        probed.len() as int
    } else if probed[from] is Failed {
        from
    } else {
        first_failed(probed, from + 1)
    }
}

/// The paths of the candidates that were loaded, in order.
pub open spec fn loaded_paths(probed: Seq<LibraryProbeView>) -> Seq<Seq<char>>
    decreases probed.len(),
{
    if probed.len() == 0 {
        Seq::empty()
    } else {
        match probed.last() {
            LibraryProbeView::Loaded(path) => loaded_paths(probed.drop_last()).push(path),
            _ => loaded_paths(probed.drop_last()),
        }
    }
}

/// The step that follows what was probed so far. The first failure ends the
/// probe with its error. While candidates remain, the next is tried. Once
/// all were tried, the probe fails where none was loaded and reports the
/// loaded ones otherwise.
pub open spec fn probe_spec(vendor_dir: Seq<char>, probed: Seq<LibraryProbeView>) -> ProbeStepView {
    let failed = first_failed(probed, 0);
    if failed < probed.len() {
        ProbeStepView::Done(
            Err(
                DriverErrorView::Other(
                    "failed to load "@ + probed[failed]->Failed_0 + ": "@
                        + probed[failed]->Failed_1,
                ),
            ),
        )
    } else if probed.len() < candidate_libraries().len() {
        ProbeStepView::Load(candidate_libraries()[probed.len() as int])
    } else if loaded_paths(probed).len() == 0 {
        ProbeStepView::Done(
            Err(DriverErrorView::Other("no vendor libraries found under "@ + vendor_dir)),
        )
    } else {
        ProbeStepView::Done(
            Ok(ProbeReportView { loaded_libraries: loaded_paths(probed), read_only: true }),
        )
    }
}

impl VendorShimDriver {
    /// Advances a probe for the vendor's libraries by one step.
    pub fn probe_vendor_runtime(&self, probed: &Vec<LibraryProbe>) -> (step: ProbeStep)
        ensures
            step@ == probe_spec(self@.vendor_dir, probe_views(probed@)),
    {
        let mut loaded: Vec<String> = Vec::new();
        let mut i: usize = 0;
        let ghost all = probe_views(probed@);
        assert(all.take(0) =~= Seq::<LibraryProbeView>::empty());
        assert(string_views(loaded@) =~= loaded_paths(all.take(0)));
        while i < probed.len()
            invariant
                i <= probed@.len(),
                all == probe_views(probed@),
                first_failed(all, 0) == first_failed(all, i as int),
                string_views(loaded@) == loaded_paths(all.take(i as int)),
            decreases probed@.len() - i,
        {
            proof {
                assert(all.take(i + 1).drop_last() =~= all.take(i as int));
                assert(all.take(i + 1).last() == probed@[i as int]@);
                assert(all[i as int] == probed@[i as int]@);
            }
            match &probed[i] {
                LibraryProbe::Failed(path, reason) => {
                    let head = join3("failed to load ", path.as_str(), ": ");
                    return ProbeStep::Done(
                        Err(DriverError::Other(join2(head.as_str(), reason.as_str()))),
                    );
                },
                LibraryProbe::Loaded(path) => {
                    let ghost before = string_views(loaded@);
                    loaded.push(path.clone());
                    assert(string_views(loaded@) =~= before.push(path@));
                },
                LibraryProbe::Missing => {},
            }
            i = i + 1;
        }
        assert(all.take(i as int) =~= all);
        if probed.len() == 0 {
            ProbeStep::Load(String::from_str("device.so"))
        } else if probed.len() == 1 {
            ProbeStep::Load(String::from_str("config.so"))
        } else if probed.len() == 2 {
            ProbeStep::Load(String::from_str("supapi.so"))
        } else if loaded.len() == 0 {
            ProbeStep::Done(
                Err(
                    DriverError::Other(
                        join2("no vendor libraries found under ", self.vendor_dir()),
                    ),
                ),
            )
        } else {
            ProbeStep::Done(Ok(ProbeReport { loaded_libraries: loaded, read_only: true }))
        }
    }
}

} // verus!
