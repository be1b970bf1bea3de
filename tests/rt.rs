use wreq::rt::TokioIo;

#[test]
fn wrapper_passes_inner_through() {
    let mut io = TokioIo::new(vec![1u8, 2, 3]);
    assert_eq!(io.inner(), &vec![1u8, 2, 3]);
    io.inner_mut().push(4);
    assert_eq!(io.into_inner(), vec![1u8, 2, 3, 4]);
}
