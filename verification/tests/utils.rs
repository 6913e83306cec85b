use abstract_algebra::utils::is_prime;

#[test]
fn small_primes() {
    let primes: Vec<usize> = (0..60).filter(|&n| is_prime(n)).collect();
    assert_eq!(primes, vec![2, 3, 5, 7, 11, 13, 17, 19, 23, 29, 31, 37, 41, 43, 47, 53, 59]);
}

#[test]
fn primality_at_the_edges() {
    assert!(!is_prime(0));
    assert!(!is_prime(1));
    assert!(is_prime(2));
    assert!(!is_prime(4));
    assert!(!is_prime(9));
    assert!(!is_prime(25));
    assert!(is_prime(97));
    assert!(!is_prime(97 * 97));
    assert!(is_prime(1_000_003));
    assert!(!is_prime(usize::MAX));
    assert!(is_prime(4_294_967_291));
    assert!(!is_prime(65_521 * 65_537));
}
