use apis::channel::{CreateError, Def, DefineError, Kind, RecvError, SendError, TryRecvError};

// process identifiers of the mock context
const A: usize = 0;
const B: usize = 1;
const C: usize = 2;
const D: usize = 3;
// channel identifiers of the mock context
const X: usize = 0;
// message type identifiers of the mock context
const T: usize = 0;

#[test]
fn channel_zero_producers_or_consumers() {
    let result = Def::define(X, Kind::Sink, vec![], vec![B], T);
    assert_eq!(result, Err(vec![DefineError::ZeroProducers]));
    let result = Def::define(X, Kind::Sink, vec![A], vec![], T);
    assert_eq!(result, Err(vec![DefineError::ZeroConsumers]));
}

#[test]
fn channel_producer_eq_consumer() {
    let result = Def::define(X, Kind::Sink, vec![A, B], vec![A], T);
    assert_eq!(result, Err(vec![DefineError::ProducerEqConsumer]));
}

#[test]
fn channel_duplicate_producer() {
    let result = Def::define(X, Kind::Sink, vec![A, A], vec![B], T);
    assert_eq!(result, Err(vec![DefineError::DuplicateProducer]));
}

#[test]
fn channel_duplicate_consumer() {
    let result = Def::define(X, Kind::Source, vec![A], vec![B, B], T);
    assert_eq!(result, Err(vec![DefineError::DuplicateConsumer]));
}

#[test]
fn channel_multiple_producers_or_consumers() {
    let result = Def::define(X, Kind::Source, vec![A, B], vec![C, D], T);
    assert_eq!(result, Err(vec![DefineError::MultipleProducers]));
    let result = Def::define(X, Kind::Simplex, vec![A], vec![B, C], T);
    assert_eq!(result, Err(vec![DefineError::MultipleConsumers]));
}

#[test]
fn channel_errors_come_in_order() {
    // zero consumers, duplicate producers and too many producers for a simplex
    let result = Def::define(X, Kind::Simplex, vec![A, A], vec![], T);
    assert_eq!(
        result,
        Err(vec![
            DefineError::ZeroConsumers,
            DefineError::DuplicateProducer,
            DefineError::MultipleProducers
        ])
    );
    // everything wrong with a simplex at once
    let result = Def::define(X, Kind::Simplex, vec![A, A, B], vec![B, B], T);
    assert_eq!(
        result,
        Err(vec![
            DefineError::DuplicateProducer,
            DefineError::DuplicateConsumer,
            DefineError::ProducerEqConsumer,
            DefineError::MultipleProducers,
            DefineError::MultipleConsumers
        ])
    );
}

#[test]
fn channel_valid_defs() {
    let simplex = Def::define(X, Kind::Simplex, vec![A], vec![B], T).unwrap();
    assert_eq!(*simplex.id(), X);
    assert_eq!(*simplex.kind(), Kind::Simplex);
    assert_eq!(*simplex.producers(), vec![A]);
    assert_eq!(*simplex.consumers(), vec![B]);
    assert_eq!(simplex.message_type_id(), T);
    let sink = Def::define(X, Kind::Sink, vec![A, B, C], vec![D], T).unwrap();
    assert_eq!(*sink.producers(), vec![A, B, C]);
    let source = Def::define(X, Kind::Source, vec![D], vec![C, B, A], T).unwrap();
    assert_eq!(*source.consumers(), vec![C, B, A]);
    assert_eq!(source.clone(), source);
}

#[test]
fn channel_sink_many_consumers_and_source_many_producers() {
    let result = Def::define(X, Kind::Sink, vec![A], vec![B, C], T);
    assert_eq!(result, Err(vec![DefineError::MultipleConsumers]));
    let result = Def::define(X, Kind::Source, vec![A, B], vec![C], T);
    assert_eq!(result, Err(vec![DefineError::MultipleProducers]));
}

#[test]
fn channel_end_errors() {
    let error = SendError(5u32);
    assert_eq!(error.0, 5);
    assert_eq!(error.description(), "sending on a closed channel");
    assert_eq!(RecvError, RecvError);
    assert_ne!(TryRecvError::Empty, TryRecvError::Disconnected);
    assert_eq!(CreateError::KindMismatch, CreateError::KindMismatch);
}
