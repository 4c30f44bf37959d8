use bldr::orchestrator::{Phase, Run};

fn run(phase: Phase, rendered: usize) -> Run {
    Run { phase, rendered }
}

#[test]
fn phases_follow_in_order() {
    let mut state = Run::start();
    assert_eq!(state, run(Phase::EnsureServicePaths, 0));
    let expected = [
        Phase::LoadDefaults,
        Phase::OverlayDiscovery,
        Phase::OverlayEnvironment,
        Phase::Convert,
        Phase::RenderEachFile,
    ];
    for phase in expected.iter() {
        state = state.advance(true, 2);
        assert_eq!(state, run(*phase, 0));
    }
    state = state.advance(true, 2);
    assert_eq!(state, run(Phase::RenderEachFile, 1));
    state = state.advance(true, 2);
    assert_eq!(state, run(Phase::Configured, 2));
    assert_eq!(state.advance(true, 2), state);
    assert_eq!(state.advance(false, 2), state);
}

#[test]
fn empty_listing_skips_rendering() {
    assert_eq!(run(Phase::Convert, 0).advance(true, 0), run(Phase::Configured, 0));
}

#[test]
fn failed_environment_overlay_writes_no_file() {
    let state = run(Phase::OverlayEnvironment, 0).advance(false, 3);
    assert_eq!(state, run(Phase::Failed, 0));
    assert_eq!(state.advance(true, 3), state);
}

#[test]
fn failure_while_rendering_keeps_earlier_files() {
    let state = run(Phase::RenderEachFile, 1).advance(false, 3);
    assert_eq!(state, run(Phase::Failed, 1));
}

#[test]
fn every_phase_fails_into_failed() {
    let phases = [
        Phase::EnsureServicePaths,
        Phase::LoadDefaults,
        Phase::OverlayDiscovery,
        Phase::OverlayEnvironment,
        Phase::Convert,
        Phase::RenderEachFile,
    ];
    for phase in phases.iter() {
        assert_eq!(run(*phase, 0).advance(false, 1).phase, Phase::Failed);
    }
}
