use neli::codec::{alignto, padding};

#[test]
fn alignment_rounds_up_to_four() {
    assert_eq!(alignto(0), 0);
    assert_eq!(alignto(1), 4);
    assert_eq!(alignto(5), 8);
    assert_eq!(alignto(16), 16);
    assert_eq!(alignto(18), 20);
    for n in 0usize..64 {
        let a = alignto(n);
        assert!(a >= n);
        assert_eq!(a % 4, 0);
        assert!(a - n < 4);
        assert_eq!(padding(n), a - n);
    }
}
