use txkit::io::ImageBinding;
use txkit::io::ImageIo;
use txkit::io::UNIT_COUNT;

#[test]
fn nothing_is_bound_at_first() {
    let io = ImageIo::new();
    for unit in 0..UNIT_COUNT {
        assert_eq!(io.get_texture_binding(unit), ImageBinding::Unbound);
        assert_eq!(io.get_image_binding(unit), ImageBinding::Unbound);
    }
    assert_eq!(UNIT_COUNT, 32);
}

#[test]
fn a_binding_is_read_back_and_leaves_the_others() {
    let mut io = ImageIo::new();
    io.set_texture_binding(3, ImageBinding::Image(9));
    io.set_image_binding(31, ImageBinding::Image(4));
    assert_eq!(io.get_texture_binding(3), ImageBinding::Image(9));
    assert_eq!(io.get_image_binding(31), ImageBinding::Image(4));
    assert_eq!(io.get_texture_binding(31), ImageBinding::Unbound);
    assert_eq!(io.get_image_binding(3), ImageBinding::Unbound);
    io.set_texture_binding(3, ImageBinding::Unbound);
    assert_eq!(io.get_texture_binding(3), ImageBinding::Unbound);
}
