use appkit_view::teardown::{teardown_steps, TeardownStep};

#[test]
fn teardown_with_superclass() {
    assert_eq!(
        teardown_steps(true),
        vec![
            TeardownStep::ReleaseState,
            TeardownStep::SuperclassDealloc,
            TeardownStep::DisposeClass
        ]
    );
}

#[test]
fn teardown_without_superclass() {
    assert_eq!(
        teardown_steps(false),
        vec![TeardownStep::ReleaseState, TeardownStep::DisposeClass]
    );
}
