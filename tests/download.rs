use dfu_nusb::download::{
    after_bus_reset, after_detach, after_transfer, classify_transfer, should_retry, NextStep, Progress, TransferOutcome,
};
use dfu_nusb::error::DfuNusbError;

fn usb_error() -> DfuNusbError {
    DfuNusbError::Nusb(std::io::Error::new(std::io::ErrorKind::Other, "device gone"))
}

#[test]
fn waiting_retries_only_while_not_found() {
    assert!(should_retry(true, &Err(DfuNusbError::DeviceNotFound)));
    assert!(!should_retry(false, &Err(DfuNusbError::DeviceNotFound)));
    assert!(!should_retry(true, &Err(DfuNusbError::AltSettingNotFound)));
    assert!(!should_retry(true, &Err(usb_error())));
}

#[test]
fn wait_loop_pauses_once_per_missing_device() {
    let n = 3;
    let mut attempts: Vec<Result<dfu_nusb::adapter::DfuNusb, DfuNusbError>> = Vec::new();
    for _ in 0..n {
        attempts.push(Err(DfuNusbError::DeviceNotFound));
    }
    attempts.push(Err(DfuNusbError::FunctionalDescriptorNotFound));
    attempts.push(Err(DfuNusbError::DeviceNotFound));
    let mut pauses = 0;
    let mut used = 0;
    while should_retry(true, &attempts[used]) {
        pauses += 1;
        used += 1;
    }
    assert_eq!(pauses, n);
    assert!(matches!(attempts[used], Err(DfuNusbError::FunctionalDescriptorNotFound)));
}

#[test]
fn progress_signals_once_when_total_is_reached() {
    let mut p = Progress::new(10);
    assert!(!p.advance(3));
    assert!(!p.advance(4));
    assert!(!p.is_finished());
    assert!(p.advance(3));
    assert!(p.is_finished());
    assert_eq!(p.current(), 10);
    assert!(!p.advance(0));
    assert_eq!(p.size(), 10);
}

#[test]
fn progress_of_an_empty_image() {
    let mut p = Progress::new(0);
    assert!(!p.is_finished());
    assert!(p.advance(0));
    assert!(!p.advance(0));
}

#[test]
fn progress_counts_whole_image_in_one_chunk() {
    let mut p = Progress::new(4096);
    assert!(p.advance(4096));
    assert_eq!(p.current(), 4096);
}

#[test]
fn success_is_completed() {
    assert_eq!(classify_transfer(&Ok(()), false), TransferOutcome::Completed);
    assert!(TransferOutcome::Completed.is_success());
}

#[test]
fn usb_failure_after_completion_is_a_self_reset() {
    let outcome = classify_transfer(&Err(usb_error()), true);
    assert_eq!(outcome, TransferOutcome::CompletedWithSelfReset);
    assert!(outcome.is_success());
}

#[test]
fn usb_failure_before_completion_is_fatal() {
    let outcome = classify_transfer(&Err(usb_error()), false);
    assert_eq!(outcome, TransferOutcome::Failed);
    assert!(!outcome.is_success());
}

#[test]
fn transfer_failure_after_completion_is_a_self_reset() {
    let e = DfuNusbError::Transfer(nusb::transfer::TransferError::Disconnected);
    assert_eq!(classify_transfer(&Err(e), true), TransferOutcome::CompletedWithSelfReset);
}

#[test]
fn transfer_failure_before_completion_is_fatal() {
    let e = DfuNusbError::Transfer(nusb::transfer::TransferError::Stall);
    assert_eq!(classify_transfer(&Err(e), false), TransferOutcome::Failed);
}

#[test]
fn other_failure_after_completion_is_fatal() {
    let e = DfuNusbError::FunctionalDescriptorNotFound;
    assert_eq!(classify_transfer(&Err(e), true), TransferOutcome::Failed);
}

#[test]
fn reset_sequence_ignores_detach_failure() {
    assert_eq!(after_transfer(true), NextStep::Detach);
    assert_eq!(after_transfer(false), NextStep::Done);
    assert_eq!(after_detach(&Err(usb_error())), NextStep::BusReset);
    assert_eq!(after_detach(&Ok(())), NextStep::BusReset);
}

#[test]
fn bus_reset_failure_is_fatal() {
    assert!(after_bus_reset(Ok(())).is_ok());
    assert!(matches!(after_bus_reset(Err(usb_error())), Err(DfuNusbError::Nusb(_))));
}
