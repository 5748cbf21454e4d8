use vknew::id_generator::IdGenerator;
use vknew::ids::{CommandBufferId, SurfaceId};

#[test]
fn generator_starts_at_one_and_counts_up() {
    let mut generator: IdGenerator<SurfaceId> = IdGenerator::new();
    assert_eq!(generator.generate(), SurfaceId { raw: 1 });
    assert_eq!(generator.generate(), SurfaceId { raw: 2 });
    assert_eq!(generator.generate(), SurfaceId { raw: 3 });
}

#[test]
fn generators_are_independent() {
    let mut a: IdGenerator<SurfaceId> = IdGenerator::new();
    let mut b: IdGenerator<CommandBufferId> = IdGenerator::new();
    assert_eq!(a.generate().raw, 1);
    assert_eq!(a.generate().raw, 2);
    assert_eq!(b.generate().raw, 1);
}

#[test]
fn identifier_survives_a_handle_round_trip() {
    let id = {
        let mut id_generator: IdGenerator<CommandBufferId> = IdGenerator::new();
        id_generator.generate()
    };
    let handle = <ash::vk::Queue as ash::vk::Handle>::from_raw(u64::from(id));
    let back = CommandBufferId::from(ash::vk::Handle::as_raw(handle));
    assert_eq!(id, back);
}

#[test]
fn generator_hands_out_increasing_nonzero_values() {
    let mut generator: IdGenerator<SurfaceId> = IdGenerator::new();
    let mut last = 0;
    for n in 1..=1000u64 {
        let id = generator.generate();
        assert_eq!(id.raw, n);
        assert!(id.raw > last);
        last = id.raw;
    }
}
