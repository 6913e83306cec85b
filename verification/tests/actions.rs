use abstract_algebra::actions::IdentityAction;

#[test]
fn actions_test() {
    let g = 32;
    let x = 48;

    let y = IdentityAction::action(&g, &x);

    assert_eq!(x, y)
}
