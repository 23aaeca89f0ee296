use txkit::api::clear_last_error;
use txkit::api::set_last_error;
use txkit::api::wrap_result;
use txkit::api::wrap_result_code;
use txkit::api::State;
use txkit::api::TXKIT_SUCCESS;
use txkit::error::Error;

#[test]
fn a_new_state_has_no_error() {
    assert_eq!(State::new().last_error(), None);
}

#[test]
fn the_last_error_is_kept_and_forgotten() {
    let mut state = State::new();
    set_last_error(&mut state, "something failed");
    assert_eq!(state.last_error(), Some("something failed"));
    set_last_error(&mut state, "something else failed");
    assert_eq!(state.last_error(), Some("something else failed"));
    clear_last_error(&mut state);
    assert_eq!(state.last_error(), None);
}

#[test]
fn a_text_with_a_character_zero_is_not_kept() {
    let mut state = State::new();
    set_last_error(&mut state, "bad\0text");
    assert_eq!(state.last_error(), Some("invalid error message"));
    state.set_last_error("\0");
    assert_eq!(state.last_error(), Some("invalid error message"));
}

#[test]
fn an_empty_text_is_no_error() {
    let mut state = State::new();
    state.set_last_error("x");
    state.set_last_error("");
    assert_eq!(state.last_error(), None);
}

#[test]
fn a_success_gives_its_value_and_forgets_the_last_error() {
    let mut state = State::new();
    state.set_last_error("earlier");
    let r: Result<u32, Error> = Ok(7);
    assert_eq!(wrap_result(&mut state, r), Some(7));
    assert_eq!(state.last_error(), None);
}

#[test]
fn a_failure_gives_nothing_and_keeps_its_text() {
    let mut state = State::new();
    let r: Result<u32, Error> = Err(Error::MethodNotFound);
    assert_eq!(wrap_result(&mut state, r), None);
    assert_eq!(state.last_error(), Some("the requested method was not found"));
}

#[test]
fn codes_are_zero_for_success_and_one_for_failure() {
    let mut state = State::new();
    let failed: Result<(), Error> = Err(Error::InvalidParameters);
    assert_eq!(wrap_result_code(&mut state, failed), 1);
    assert_eq!(
        state.last_error(),
        Some("the provided parameters do not apply to the given method")
    );
    let fine: Result<(), Error> = Ok(());
    assert_eq!(wrap_result_code(&mut state, fine), TXKIT_SUCCESS);
    assert_eq!(TXKIT_SUCCESS, 0);
    assert_eq!(state.last_error(), None);
}
