use terminal_utils::resize::ResizeWatcher;
use terminal_utils::TerminalSize;

fn cells(width: u16, height: u16) -> TerminalSize {
    TerminalSize { width, height, pixel_width: 0, pixel_height: 0 }
}

fn tick(
    watcher: &mut ResizeWatcher,
    tx: &tokio::sync::watch::Sender<TerminalSize>,
    queried: Option<TerminalSize>,
) -> bool {
    match watcher.publish(queried) {
        Some(changed) => {
            tx.send_replace(changed);
            true
        }
        None => false,
    }
}

#[test]
fn watcher_starts_at_seed() {
    let watcher = ResizeWatcher::new(cells(80, 24));
    assert_eq!(watcher.last_published(), cells(80, 24));
}

#[test]
fn changed_size_is_returned_for_sending() {
    let mut watcher = ResizeWatcher::new(cells(80, 24));
    assert_eq!(watcher.publish(Some(cells(100, 30))), Some(cells(100, 30)));
    assert_eq!(watcher.last_published(), cells(100, 30));
}

#[test]
fn equal_size_is_not_returned() {
    let mut watcher = ResizeWatcher::new(cells(80, 24));
    assert_eq!(watcher.publish(Some(cells(80, 24))), None);
    assert_eq!(watcher.publish(Some(cells(100, 30))), Some(cells(100, 30)));
    assert_eq!(watcher.publish(Some(cells(100, 30))), None);
    assert_eq!(watcher.last_published(), cells(100, 30));
}

#[test]
fn failed_query_returns_nothing() {
    let mut watcher = ResizeWatcher::new(cells(80, 24));
    assert_eq!(watcher.publish(None), None);
    assert_eq!(watcher.last_published(), cells(80, 24));
}

#[test]
fn changed_size_reaches_subscriber() {
    let (tx, mut rx) = tokio::sync::watch::channel(cells(80, 24));
    let mut watcher = ResizeWatcher::new(cells(80, 24));
    assert!(tick(&mut watcher, &tx, Some(cells(100, 30))));
    assert!(rx.has_changed().unwrap());
    assert_eq!(*rx.borrow_and_update(), cells(100, 30));
}

#[test]
fn same_size_does_not_notify_again() {
    let (tx, mut rx) = tokio::sync::watch::channel(cells(80, 24));
    let mut watcher = ResizeWatcher::new(cells(80, 24));
    assert!(!tick(&mut watcher, &tx, Some(cells(80, 24))));
    assert!(!rx.has_changed().unwrap());

    assert!(tick(&mut watcher, &tx, Some(cells(100, 30))));
    assert_eq!(*rx.borrow_and_update(), cells(100, 30));
    assert!(!tick(&mut watcher, &tx, Some(cells(100, 30))));
    assert!(!rx.has_changed().unwrap());
    assert_eq!(*rx.borrow(), cells(100, 30));
}

#[test]
fn failed_query_leaves_channel_alone() {
    let (tx, rx) = tokio::sync::watch::channel(cells(80, 24));
    let mut watcher = ResizeWatcher::new(cells(80, 24));
    assert!(!tick(&mut watcher, &tx, None));
    assert!(!rx.has_changed().unwrap());
    assert_eq!(*rx.borrow(), cells(80, 24));
}

#[test]
fn pixel_change_alone_is_published() {
    let (tx, rx) = tokio::sync::watch::channel(cells(80, 24));
    let mut watcher = ResizeWatcher::new(cells(80, 24));
    let with_pixels = TerminalSize { width: 80, height: 24, pixel_width: 640, pixel_height: 480 };
    assert!(tick(&mut watcher, &tx, Some(with_pixels)));
    assert_eq!(*rx.borrow(), with_pixels);
}

#[test]
fn only_latest_value_reaches_late_subscriber() {
    let (tx, mut rx) = tokio::sync::watch::channel(cells(80, 24));
    let mut watcher = ResizeWatcher::new(cells(80, 24));
    assert!(tick(&mut watcher, &tx, Some(cells(90, 25))));
    assert!(tick(&mut watcher, &tx, Some(cells(100, 30))));
    assert_eq!(*rx.borrow_and_update(), cells(100, 30));
    assert!(!rx.has_changed().unwrap());
}

#[test]
fn subscriber_awaiting_change_sees_new_size() {
    let (tx, mut rx) = tokio::sync::watch::channel(cells(80, 24));
    let mut watcher = ResizeWatcher::new(cells(80, 24));
    let runtime = tokio::runtime::Builder::new_current_thread().build().unwrap();
    let waiter = runtime.spawn(async move {
        rx.changed().await.unwrap();
        let seen = *rx.borrow_and_update();
        seen
    });
    assert!(tick(&mut watcher, &tx, Some(cells(100, 30))));
    let seen = runtime.block_on(waiter).unwrap();
    assert_eq!(seen, cells(100, 30));
}
