//! The sequence of an invocation: which phase follows which, and where a
//! failure leads.

use vstd::prelude::*;

verus! {

/// The phases of one invocation, in their order, and its two ends.
#[derive(Debug, Clone, Copy, PartialEq, Eq, Structural)]
pub enum Phase {
    /// Create the service directories and copy the bootstrap file.
    EnsureServicePaths,
    /// Read and parse the default configuration.
    LoadDefaults,
    /// Fetch the discovery overlay and merge it.
    OverlayDiscovery,
    /// Read the environment overlay and merge it.
    OverlayEnvironment,
    /// Convert the table into template data.
    Convert,
    /// Render the next template of the listing.
    RenderEachFile,
    /// Every file is rendered.
    Configured,
    /// A phase failed; nothing more is attempted.
    Failed,
}

impl Phase {
    /// The invocation has ended.
    pub open spec fn is_terminal(self) -> bool {
        self is Configured || self is Failed
    }

    /// The phase does its work before any file is rendered.
    pub open spec fn is_preparation(self) -> bool {
        self is EnsureServicePaths || self is LoadDefaults || self is OverlayDiscovery
            || self is OverlayEnvironment || self is Convert
    }

    /// The place of a phase in the order of an invocation.
    pub open spec fn rank(self) -> nat {
        match self {
            Phase::EnsureServicePaths => 0,
            Phase::LoadDefaults => 1,
            Phase::OverlayDiscovery => 2,
            Phase::OverlayEnvironment => 3,
            Phase::Convert => 4,
            Phase::RenderEachFile => 5,
            Phase::Configured => 6,
            Phase::Failed => 6,
        }
    }
}

/// Where an invocation stands: its phase and the number of files rendered.
#[derive(Debug, Clone, Copy, PartialEq, Eq, Structural)]
pub struct Run {
    pub phase: Phase,
    pub rendered: usize,
}

/// The state after the work of the current phase has ended, well or not, with
/// `files` templates in the listing. A failure ends the invocation at once; a
/// success leads to the next phase, and from rendering to the next file until
/// the listing is exhausted.
pub open spec fn advanced(run: Run, succeeded: bool, files: usize) -> Run {
    if run.phase.is_terminal() {
        run
    } else if !succeeded {
        Run { phase: Phase::Failed, rendered: run.rendered }
    } else {
        match run.phase {
            Phase::EnsureServicePaths => Run { phase: Phase::LoadDefaults, rendered: run.rendered },
            Phase::LoadDefaults => Run { phase: Phase::OverlayDiscovery, rendered: run.rendered },
            Phase::OverlayDiscovery => Run {
                phase: Phase::OverlayEnvironment,
                rendered: run.rendered,
            },
            Phase::OverlayEnvironment => Run { phase: Phase::Convert, rendered: run.rendered },
            Phase::Convert => Run {
                phase: if run.rendered < files {
                    Phase::RenderEachFile
                } else {
                    Phase::Configured
                },
                rendered: run.rendered,
            },
            _ => if run.rendered < files {
                Run {
                    phase: if run.rendered + 1 < files {
                        Phase::RenderEachFile
                    } else {
                        Phase::Configured
                    },
                    rendered: (run.rendered + 1) as usize,
                }
            } else {
                Run { phase: Phase::Configured, rendered: run.rendered }
            },
        }
    }
}

impl Run {
    /// The start of an invocation: the first phase, nothing rendered.
    pub fn start() -> (out: Run)
        ensures
            out == (Run { phase: Phase::EnsureServicePaths, rendered: 0 }),
    {
        Run { phase: Phase::EnsureServicePaths, rendered: 0 }
    }

    /// The state after the work of the current phase has ended.
    pub fn advance(self, succeeded: bool, files: usize) -> (out: Run)
        ensures
            out == advanced(self, succeeded, files),
    {
        match self.phase {
            Phase::Configured | Phase::Failed => self,
            _ if !succeeded => Run { phase: Phase::Failed, rendered: self.rendered },
            Phase::EnsureServicePaths => Run { phase: Phase::LoadDefaults, rendered: self.rendered },
            Phase::LoadDefaults => Run { phase: Phase::OverlayDiscovery, rendered: self.rendered },
            Phase::OverlayDiscovery => Run {
                phase: Phase::OverlayEnvironment,
                rendered: self.rendered,
            },
            Phase::OverlayEnvironment => Run { phase: Phase::Convert, rendered: self.rendered },
            Phase::Convert => {
                if self.rendered < files {
                    Run { phase: Phase::RenderEachFile, rendered: self.rendered }
                } else {
                    Run { phase: Phase::Configured, rendered: self.rendered }
                }
            },
            Phase::RenderEachFile => {
                if self.rendered < files {
                    let rendered: usize = self.rendered + 1;
                    if rendered < files {
                        Run { phase: Phase::RenderEachFile, rendered }
                    } else {
                        Run { phase: Phase::Configured, rendered }
                    }
                } else {
                    Run { phase: Phase::Configured, rendered: self.rendered }
                }
            },
        }
    }
}

/// A failure in any phase ends the invocation there: no later phase runs and
/// no further file is rendered. An invocation that has ended stays as it is.
pub proof fn failure_is_terminal(run: Run, succeeded: bool, files: usize)
    ensures
        !run.phase.is_terminal() ==> advanced(run, false, files) == (Run {
            phase: Phase::Failed,
            rendered: run.rendered,
        }),
        run.phase.is_terminal() ==> advanced(run, succeeded, files) == run,
{
}

/// The phases run in their order: a success in a phase before rendering leads
/// to the phase of the next rank, or past rendering where no file is left.
pub proof fn phases_run_in_order(run: Run, files: usize)
    requires
        run.phase.is_preparation(),
    ensures
        advanced(run, true, files).phase.rank() > run.phase.rank(),
        !(run.phase is Convert) ==> advanced(run, true, files).phase.rank() == run.phase.rank()
            + 1,
        advanced(run, true, files).phase is OverlayEnvironment <==> run.phase is OverlayDiscovery,
{
}

/// No file is rendered before the rendering phase: whatever happens in an
/// earlier phase, the count of rendered files stays what it was.
pub proof fn nothing_rendered_before_rendering(run: Run, succeeded: bool, files: usize)
    requires
        run.phase.is_preparation(),
    ensures
        advanced(run, succeeded, files).rendered == run.rendered,
        !succeeded ==> advanced(run, succeeded, files).phase is Failed,
{
}

/// The count of rendered files never passes the length of the listing, and an
/// invocation is configured only when every file is rendered.
pub proof fn rendering_stays_within_listing(run: Run, succeeded: bool, files: usize)
    requires
        run.rendered <= files,
        run.phase is Configured ==> run.rendered == files,
    ensures
        advanced(run, succeeded, files).rendered <= files,
        advanced(run, succeeded, files).phase is Configured ==> advanced(
            run,
            succeeded,
            files,
        ).rendered == files,
{
}

} // verus!
