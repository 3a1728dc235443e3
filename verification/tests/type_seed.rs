use type_reg::de::TypeSeed;

#[test]
fn type_seed_keeps_its_tag() {
    let tag = String::from("i64");
    let seed = TypeSeed::new(&tag);

    assert_eq!("i64", seed.tag());
}
