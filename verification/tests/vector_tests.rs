use physics::{Circle, Number, Vector2, FRAC_ONE};

fn n(i: i64) -> Number {
    Number::from_int(i)
}

fn v(x: i64, y: i64) -> Vector2 {
    Vector2 { x: n(x), y: n(y) }
}

#[test]
fn componentwise_ops() {
    assert_eq!(v(1, 2).add(v(3, 4)), v(4, 6));
    assert_eq!(v(1, 2).sub(v(3, 5)), v(-2, -3));
    assert_eq!(v(2, 3).mul(v(4, 5)), v(8, 15));
    assert_eq!(v(8, 15).div(v(4, 5)), v(2, 3));
    assert_eq!(v(1, -2).neg(), v(-1, 2));
}

#[test]
fn scalar_ops_both_orders() {
    assert_eq!(v(1, 2).add_num(n(10)), v(11, 12));
    assert_eq!(Vector2::num_add(n(10), v(1, 2)), v(11, 12));
    assert_eq!(v(5, 7).sub_num(n(2)), v(3, 5));
    assert_eq!(Vector2::num_sub(n(10), v(1, 2)), v(9, 8));
    assert_eq!(v(1, 2).mul_num(n(3)), v(3, 6));
    assert_eq!(Vector2::num_mul(n(3), v(1, 2)), v(3, 6));
    assert_eq!(v(8, 6).div_num(n(2)), v(4, 3));
    assert_eq!(Vector2::num_div(n(12), v(3, 4)), v(4, 3));
}

#[test]
fn dot_and_lengths() {
    assert_eq!(v(3, 4).dot(v(2, 5)), n(26));
    assert_eq!(v(3, 4).sqr_length(), n(25));
    assert_eq!(v(3, 4).length(), n(5));
}

#[test]
fn normalized_unit_and_zero() {
    assert_eq!(v(0, 5).normalized(), v(0, 1));
    assert_eq!(v(-3, 0).normalized(), v(-1, 0));
    // the zero vector has zero length and normalizes to itself rather than
    // dividing by zero
    assert_eq!(v(0, 0).normalized(), v(0, 0));
}

#[test]
fn sum_in_order_from_zero() {
    let vs: Vec<Vector2> = vec![v(1, 2), v(3, 4), v(-2, -2)];
    assert_eq!(Vector2::sum(&vs), v(2, 4));
    let empty: Vec<Vector2> = vec![];
    assert_eq!(Vector2::sum(&empty), v(0, 0));
}

#[test]
fn get_energy_formula() {
    // one half times mass 2 times squared speed 25
    let c = Circle { position: v(0, 0), velocity: v(3, 4), mass: n(2), radius: n(1) };
    assert_eq!(c.get_energy(), n(25));
    // fractional case: mass 1, speed 1 gives one half
    let c2 = Circle { position: v(0, 0), velocity: v(1, 0), mass: n(1), radius: n(1) };
    assert_eq!(c2.get_energy().to_bits(), FRAC_ONE / 2);
}
