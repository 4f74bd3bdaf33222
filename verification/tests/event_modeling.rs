use esrc::event::Sequence;
use esrc::event_modeling::{
    ComponentName, ConsumerRole, ExecutionPolicy, ReadModel, ReadModelSlice,
};
use esrc::query::QueryTransport;

fn name() -> ComponentName {
    ComponentName::new("shop", "orders", "checkout", "summary")
}

#[test]
fn read_models_keep_their_role_through_builders_and_clones() {
    let model = ReadModel::new(name(), 7u32)
        .with_execution_policy(ExecutionPolicy::Concurrent { max_in_flight: 4 });
    let copy = model.clone();
    for m in [&model, &copy] {
        let spec = m.as_spec();
        assert_eq!(spec.role(), ConsumerRole::ReadModel);
        assert_eq!(spec.name(), &name());
        assert_eq!(spec.execution_policy(), ExecutionPolicy::Concurrent { max_in_flight: 4 });
        assert_eq!(*spec.projector(), 7);
    }
    assert_eq!(copy.into_spec().role(), ConsumerRole::ReadModel);
}

#[test]
fn slices_share_one_name_between_consumer_and_query() {
    let mut slice = ReadModelSlice::new(name(), 1u8, 2u16)
        .with_execution_policy(ExecutionPolicy::Sequential)
        .with_query_transport(QueryTransport::NatsRequestReply);
    *slice.projector_mut() = 3;
    *slice.handler_mut() = 4;
    let copy = slice.clone();
    for s in [&slice, &copy] {
        assert_eq!(s.name(), &name());
        assert_eq!(s.consumer_spec().name(), s.name());
        assert_eq!(s.query_spec().name(), s.name());
        assert_eq!(s.consumer_spec().role(), ConsumerRole::ReadModel);
        assert_eq!(*s.projector(), 3);
        assert_eq!(*s.handler(), 4);
    }
    let (consumer, query) = copy.into_specs();
    assert_eq!(consumer.name(), query.name());
}

#[test]
fn sequences_are_ordered_by_their_number() {
    assert!(Sequence::from(1) < Sequence::from(2));
    assert!(Sequence::from(3) >= Sequence::from(3));
    assert!(Sequence::new() <= Sequence::from(0));
    assert_eq!(Sequence::default(), Sequence::new());
    assert_eq!(u64::from(Sequence::default()), 0);
    assert!(Sequence::from(9) > Sequence::from(8));
}
