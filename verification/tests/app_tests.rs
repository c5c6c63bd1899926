//! Wizard scenarios: navigation, guarded transitions, and a full run from
//! drive selection to completion over a simulated device.

use minuteman::app::{handle_app, App, Command};
use minuteman::device::MemDevice;
use minuteman::disk::{Disk, DiskType};
use minuteman::engine::Outcome;
use minuteman::method::{sanitization_methods, Pass, PassPattern, SanitizationMethod};

fn test_disk(name: &str, size: u64) -> Disk {
    Disk {
        name: name.to_owned(),
        model: "DataTraveler".to_owned(),
        serial_number: "0019E06B9380".to_owned(),
        disk_type: DiskType::Removable,
        partitions: vec![],
        version: "1.00".to_owned(),
        total_space: size,
        used_space: 0,
        free_space: size,
    }
}

fn quick_method() -> SanitizationMethod {
    SanitizationMethod {
        name: "single zero pass with verify".to_owned(),
        passes: vec![Pass { pattern: PassPattern::Zeros, verify: true }],
    }
}

fn ready_app(size: u64) -> App {
    App::new(vec![test_disk("/dev/sdb", size)], vec![quick_method()], "Minuteman".to_owned())
}

#[test]
fn advance_needs_a_selection() {
    let mut app = ready_app(64);
    assert_eq!(app.status.index, 0);
    app.on_continue();
    assert_eq!(app.status.index, 0);
    app.on_down();
    assert_eq!(app.drives.selected, Some(0));
    app.on_continue();
    assert_eq!(app.status.index, 1);
    app.on_continue();
    assert_eq!(app.status.index, 1);
    app.on_down();
    app.on_continue();
    assert_eq!(app.status.index, 2);
}

#[test]
fn negative_confirmation_returns_without_a_job() {
    let mut app = ready_app(64);
    app.on_down();
    app.on_continue();
    app.on_down();
    app.on_continue();
    assert_eq!(app.status.index, 2);
    assert_eq!(app.confirmation.index, 0);
    app.on_continue();
    assert_eq!(app.status.index, 1);
    assert!(app.job.is_none());
    assert!(!app.is_deleting);
}

#[test]
fn confirmation_toggle_wraps_between_two_options() {
    let mut app = ready_app(64);
    app.on_down();
    app.on_continue();
    app.on_down();
    app.on_continue();
    assert_eq!(app.confirmation.index, 0);
    app.on_right();
    assert_eq!(app.confirmation.index, 1);
    app.on_right();
    assert_eq!(app.confirmation.index, 0);
    app.on_left();
    assert_eq!(app.confirmation.index, 1);
    app.on_continue();
    assert_eq!(app.status.index, 3);
    // Outside the confirmation screen the toggle is inert.
    let before = app.confirmation.index;
    app.on_left();
    assert_eq!(app.confirmation.index, before);
}

#[test]
fn selection_lists_wrap_circularly() {
    let mut app = App::new(
        vec![test_disk("/dev/sdb", 64), test_disk("/dev/sdc", 64)],
        vec![quick_method()],
        "Minuteman".to_owned(),
    );
    app.on_down();
    assert_eq!(app.drives.selected, Some(0));
    app.on_down();
    assert_eq!(app.drives.selected, Some(1));
    app.on_down();
    assert_eq!(app.drives.selected, Some(0));
    app.on_up();
    assert_eq!(app.drives.selected, Some(1));
}

#[test]
fn full_wizard_run_reaches_complete() {
    let mut app = ready_app(64);
    let mut dev = MemDevice::filled(64, 0x5A);
    handle_app(Command::Down, &mut app);
    handle_app(Command::Continue, &mut app);
    handle_app(Command::Down, &mut app);
    handle_app(Command::Continue, &mut app);
    handle_app(Command::Right, &mut app);
    handle_app(Command::Continue, &mut app);
    assert_eq!(app.status.index, 3);
    assert!(app.is_deleting);
    assert!(app.job.is_some());
    let mut guard = 0;
    while app.is_deleting && guard < 1000 {
        app.step_job(&mut dev);
        handle_app(Command::Tick, &mut app);
        guard += 1;
    }
    assert_eq!(app.status.index, 5);
    assert!(!app.is_deleting);
    assert_eq!(app.job.as_ref().unwrap().outcome, Outcome::Succeeded);
    let (num, den) = app.progress_parts().unwrap();
    assert_eq!(num, den);
    assert!(dev.into_vec().iter().all(|b| *b == 0));

    // Terminal screens return to drive selection for a fresh round.
    handle_app(Command::Continue, &mut app);
    assert_eq!(app.status.index, 0);
    assert!(app.job.is_none());
}

#[test]
fn back_is_a_no_op_while_running() {
    let mut app = ready_app(4096);
    let mut dev = MemDevice::filled(4096, 0x5A);
    app.on_down();
    app.on_continue();
    app.on_down();
    app.on_continue();
    app.on_right();
    app.on_continue();
    app.step_job(&mut dev);
    assert!(app.is_deleting);
    let screen = app.status.index;
    let (num_before, den_before) = app.progress_parts().unwrap();
    app.on_back();
    assert_eq!(app.status.index, screen);
    assert!(app.is_deleting);
    let (num_after, den_after) = app.progress_parts().unwrap();
    assert_eq!((num_before, den_before), (num_after, den_after));
    assert_eq!(app.job.as_ref().unwrap().outcome, Outcome::Running);
}

#[test]
fn quit_is_refused_while_running() {
    let mut app = ready_app(64);
    app.on_down();
    app.on_continue();
    app.on_down();
    app.on_continue();
    app.on_right();
    app.on_continue();
    assert!(app.is_deleting);
    app.quit();
    assert!(!app.should_quit);
    // Once the job is done, quitting works again.
    let mut dev = MemDevice::filled(64, 0x5A);
    let mut guard = 0;
    while app.is_deleting && guard < 1000 {
        app.step_job(&mut dev);
        app.on_tick();
        guard += 1;
    }
    app.quit();
    assert!(app.should_quit);
}

#[test]
fn cancel_moves_the_wizard_to_error() {
    // Four chunks of writing, so the cancellation lands mid-pass.
    let mib: u64 = 1048576;
    let mut app = ready_app(4 * mib);
    let mut dev = MemDevice::filled(4 * mib as usize, 0x5A);
    app.on_down();
    app.on_continue();
    app.on_down();
    app.on_continue();
    app.on_right();
    app.on_continue();
    app.step_job(&mut dev);
    assert!(app.is_deleting);
    app.cancel();
    app.step_job(&mut dev);
    app.on_tick();
    assert_eq!(app.status.index, 6);
    assert!(!app.is_deleting);
    assert_eq!(app.stop_reason, Some(Outcome::Cancelled));
    let (num, den) = app.progress_parts().unwrap();
    assert!(num < den);
}

#[test]
fn back_walks_confirm_to_method_to_drive() {
    let mut app = ready_app(64);
    app.on_down();
    app.on_continue();
    app.on_down();
    app.on_continue();
    assert_eq!(app.status.index, 2);
    app.on_back();
    assert_eq!(app.status.index, 1);
    app.on_back();
    assert_eq!(app.status.index, 0);
    app.on_back();
    assert_eq!(app.status.index, 0);
}

#[test]
fn wizard_screens_follow_the_engine_phase() {
    let mut app = ready_app(4096);
    let mut dev = MemDevice::filled(4096, 0x5A);
    app.on_down();
    app.on_continue();
    app.on_down();
    app.on_continue();
    app.on_right();
    app.on_continue();
    assert_eq!(app.status.index, 3);
    // The single zero pass writes in one chunk, then verifies.
    app.step_job(&mut dev);
    app.on_tick();
    assert_eq!(app.status.index, 4);
    app.step_job(&mut dev);
    app.on_tick();
    assert_eq!(app.status.index, 5);
}

#[test]
fn catalog_methods_drive_the_wizard() {
    let mut app = App::new(
        vec![test_disk("/dev/sdb", 256)],
        sanitization_methods(),
        "Minuteman".to_owned(),
    );
    let mut dev = MemDevice::filled(256, 0x5A);
    app.on_down();
    app.on_continue();
    // Choose the DoD 5220.22-M scheme: three verified passes.
    for _ in 0..5 {
        app.on_down();
    }
    assert_eq!(app.deletion_methods.selected, Some(4));
    app.on_continue();
    app.on_right();
    app.on_continue();
    let mut guard = 0;
    while app.is_deleting && guard < 1000 {
        app.step_job(&mut dev);
        app.on_tick();
        guard += 1;
    }
    assert_eq!(app.status.index, 5);
    assert_eq!(app.job.as_ref().unwrap().outcome, Outcome::Succeeded);
}

#[test]
fn wizard_screen_and_toggle_titles() {
    let app = ready_app(64);
    let titles: Vec<&str> = app.status.titles.iter().map(|t| t.as_str()).collect();
    assert_eq!(
        titles,
        vec![
            "Select Drive",
            "Select Deletion Method",
            "Confirm",
            "Deletion In progress",
            "Verify in progress",
            "Complete",
            "Error",
        ]
    );
    let toggles: Vec<&str> = app.confirmation.titles.iter().map(|t| t.as_str()).collect();
    assert_eq!(toggles, vec!["<CANCEL>", "<DELETE>"]);
    assert!(app.debug_mode);
    assert_eq!(app.title, "Minuteman");
}
