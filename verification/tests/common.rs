use neutron::common::{IdGen, OptLevel};

#[test]
fn id_gen_sequential() {
    let mut g = IdGen::new();
    assert_eq!(g.gen(), 0);
    assert_eq!(g.gen(), 1);
    assert_eq!(g.gen(), 2);
}

#[test]
fn opt_level_ordering() {
    assert!(OptLevel::O2 > OptLevel::O1);
}
