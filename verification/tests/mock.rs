use apis::process;

#[test]
fn it_works() {
}

/// The kinds that the mock context's processes are given.
#[test]
fn mock_process_kinds_are_the_defaults() {
    assert_eq!(
        process::Kind::default_synchronous(),
        process::Kind::Synchronous { tick_ms: 1000, ticks_per_update: 1 }
    );
    assert_eq!(
        process::Kind::default_asynchronous(),
        process::Kind::Asynchronous { messages_per_update: 1 }
    );
    assert_eq!(process::Kind::default_asynchronous_polling(), process::Kind::AsynchronousPolling);
}
