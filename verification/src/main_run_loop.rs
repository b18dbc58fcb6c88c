//! Running and stopping the main run loop of the process.

use vstd::prelude::*;

use crate::subject::Subject;

verus! {

/// The source of the main run loop could not be installed.
#[derive(Clone, Copy, Debug, PartialEq, Eq, Structural)]
pub struct MainRunLoopError {}

impl MainRunLoopError {
    /// What went wrong.
    pub fn message(&self) -> (message: &'static str)
        ensures
            message@ == "failed to install the process main CFRunLoop source"@,
    {
        "failed to install the process main CFRunLoop source"
    }
}

/// The main run loop. It runs until it is stopped.
#[derive(Debug, PartialEq, Eq)]
pub struct MainRunLoop {
    stopped: bool,
}

impl MainRunLoop {
    pub closed spec fn spec_stopped(self) -> bool {
        self.stopped
    }

    /// Installs the loop: there has to be a main loop, the caller has to be on
    /// it, and its source has to be created.
    pub fn new<S: FnOnce() -> bool>(
        main_loop: Option<u64>,
        current_loop: Option<u64>,
        install_source: S,
    ) -> (installed: Result<Self, MainRunLoopError>)
        requires
            main_loop is Some && current_loop == main_loop ==> call_requires(install_source, ()),
        ensures
            installed matches Ok(running) ==> !running.spec_stopped(),
            !(main_loop is Some && current_loop == main_loop) ==> installed is Err,
            main_loop is Some && current_loop == main_loop ==> exists|created: bool| #[trigger]
                call_ensures(install_source, (), created) && (installed is Ok <==> created),
    {
        let on_main_loop = match (main_loop, current_loop) {
            (Some(main_loop), Some(current_loop)) => main_loop == current_loop,
            _ => false,
        };
        if on_main_loop && install_source() {
            Ok(MainRunLoop { stopped: false })
        } else {
            Err(MainRunLoopError {  })
        }
    }

    /// Whether the loop goes on.
    pub fn runs(&self) -> (runs: bool)
        ensures
            runs == !self.spec_stopped(),
    {
        !self.stopped
    }
}

/// Stops the main run loop, once.
#[derive(Clone, Copy, Debug, PartialEq, Eq, Structural)]
pub struct MainRunLoopStopper {}

impl MainRunLoopStopper {
    /// Marks the loop as stopped; tells whether the native loop has to be stopped
    /// now, which is so for the first stop only.
    pub fn stop(&self, run_loop: &mut MainRunLoop) -> (stops: bool)
        ensures
            final(run_loop).spec_stopped(),
            stops == !old(run_loop).spec_stopped(),
    {
        let stops = !run_loop.stopped;
        run_loop.stopped = true;
        stops
    }
}

/// The main loop is installed only on its own thread and where its source could be made; it runs until
/// it is stopped, and only the first stop ends the native loop.
pub proof fn law_the_main_loop_stops_once<S: FnOnce() -> bool>(
    main_loop: Option<u64>,
    current_loop: Option<u64>,
    install_source: S,
    installed: Result<MainRunLoop, MainRunLoopError>,
    stopper: MainRunLoopStopper,
    call: Subject<MainRunLoop>,
    stops: bool,
)
    requires
        call_ensures(
            MainRunLoop::new::<S>,
            (main_loop, current_loop, install_source),
            installed,
        ),
        call_ensures(MainRunLoopStopper::stop, (&stopper, call.on), stops),
    ensures
        installed is Ok ==> main_loop is Some && current_loop == main_loop && call_ensures(
            install_source,
            (),
            true,
        ),
        installed is Err && main_loop is Some && current_loop == main_loop ==> call_ensures(
            install_source,
            (),
            false,
        ),
        installed matches Ok(running) ==> !running.spec_stopped(),
        final(call.on).spec_stopped(),
        stops <==> !old(call.on).spec_stopped(),
{
}

} // verus!
