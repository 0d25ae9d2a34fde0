use apis::process::{Def, DefineError, Kind, KindError};

// process identifiers of the mock context
const A: usize = 0;
// channel identifiers of the mock context
const X: usize = 0;
const Y: usize = 1;
const Z: usize = 2;

#[test]
fn process_duplicate_sourcepoint() {
    let result = Def::define(A, Kind::default_synchronous(), vec![X, Z, X], vec![Y]);
    assert_eq!(result, Err(vec![DefineError::DuplicateSourcepoint]));
}

#[test]
fn process_duplicate_endpoint() {
    let result = Def::define(A, Kind::default_synchronous(), vec![X, Z], vec![Y, Y]);
    assert_eq!(result, Err(vec![DefineError::DuplicateEndpoint]));
}

#[test]
fn process_self_loop() {
    let result = Def::define(A, Kind::default_synchronous(), vec![X, Z], vec![Y, Z]);
    assert_eq!(result, Err(vec![DefineError::SourcepointEqEndpoint]));
}

#[test]
fn process_asynchronous_zero_endpoints() {
    let result = Def::define(A, Kind::default_asynchronous(), vec![Z], vec![]);
    assert_eq!(result, Err(vec![DefineError::AsynchronousZeroEndpoints]));
}

#[test]
fn process_asynchronous_multiple_endpoints() {
    let result = Def::define(A, Kind::default_asynchronous(), vec![Z], vec![X, Y]);
    assert_eq!(result, Err(vec![DefineError::AsynchronousMultipleEndpoints]));
}

#[test]
fn process_errors_come_in_order() {
    let result = Def::define(A, Kind::default_asynchronous(), vec![X, X, Y], vec![Y, Z, Z]);
    assert_eq!(
        result,
        Err(vec![
            DefineError::DuplicateSourcepoint,
            DefineError::DuplicateEndpoint,
            DefineError::SourcepointEqEndpoint,
            DefineError::AsynchronousMultipleEndpoints
        ])
    );
}

#[test]
fn process_valid_defs() {
    // no sourcepoints and no endpoints are allowed for synchronous processes
    let def = Def::define(A, Kind::default_synchronous(), vec![], vec![]).unwrap();
    assert_eq!(*def.id(), A);
    assert!(def.sourcepoints().is_empty());
    let def = Def::define(A, Kind::default_asynchronous(), vec![X, Z], vec![Y]).unwrap();
    assert_eq!(*def.kind(), Kind::Asynchronous { messages_per_update: 1 });
    assert_eq!(*def.sourcepoints(), vec![X, Z]);
    assert_eq!(*def.endpoints(), vec![Y]);
    assert_eq!(def.clone(), def);
    let def = Def::define(A, Kind::default_asynchronous_polling(), vec![X], vec![Y, Z]).unwrap();
    assert_eq!(*def.endpoints(), vec![Y, Z]);
}

#[test]
fn process_kind_constructors() {
    assert_eq!(
        Kind::new_synchronous(20, 3),
        Ok(Kind::Synchronous { tick_ms: 20, ticks_per_update: 3 })
    );
    assert_eq!(Kind::new_synchronous(0, 3), Err(vec![KindError::SynchronousZeroTickMs]));
    assert_eq!(Kind::new_synchronous(20, 0), Err(vec![KindError::SynchronousZeroTicksPerUpdate]));
    assert_eq!(
        Kind::new_synchronous(0, 0),
        Err(vec![KindError::SynchronousZeroTickMs, KindError::SynchronousZeroTicksPerUpdate])
    );
    assert_eq!(Kind::new_asynchronous(7), Ok(Kind::Asynchronous { messages_per_update: 7 }));
    assert_eq!(Kind::new_asynchronous(0), Err(vec![KindError::AsynchronousZeroMessagesPerUpdate]));
    assert_eq!(Kind::new_asynchronous_polling(), Kind::AsynchronousPolling);
    assert_eq!(Kind::default_synchronous(), Kind::Synchronous { tick_ms: 1000, ticks_per_update: 1 });
    assert_eq!(Kind::default_asynchronous(), Kind::Asynchronous { messages_per_update: 1 });
    assert_eq!(Kind::default_asynchronous_polling(), Kind::AsynchronousPolling);
}
