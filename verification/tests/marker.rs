use sigchld::marker::Marker;

#[test]
fn markers_never_repeat_across_carries() {
    let first = Marker::new();
    let mut marker = Marker::new();
    for _ in 0..70_000 {
        let next = marker.successor();
        assert!(!next.same(&marker));
        assert!(!next.same(&first));
        assert!(next.same(&next.clone()));
        marker = next;
    }
}
