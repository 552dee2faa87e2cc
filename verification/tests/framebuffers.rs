use limine_boot::framebuffer::{
    LimineFramebuffer, LimineFramebufferRequest, LimineFramebufferResponse,
};
use limine_boot::ptr::NonNullPtr;

fn place<T>(value: T) -> &'static T {
    Box::leak(Box::new(value))
}

fn surface(pitch: u64, height: u64, bpp: u16) -> LimineFramebuffer {
    LimineFramebuffer {
        address: 0xfd00_0000,
        width: pitch / 4,
        height,
        pitch,
        bpp,
        memory_model: 1,
        red_mask_size: 8,
        red_mask_shift: 16,
        green_mask_size: 8,
        green_mask_shift: 8,
        blue_mask_size: 8,
        blue_mask_shift: 0,
        reserved: [0; 7],
        edid_size: 0,
        edid: 0,
    }
}

fn numbered(n: u64) -> LimineFramebuffer {
    LimineFramebuffer {
        address: 0x1000_0000 + (n as usize) * 0x10_0000,
        width: 100 + n,
        height: 200 + n,
        pitch: 400 + 4 * n,
        bpp: 32,
        memory_model: 1,
        red_mask_size: n as u8,
        red_mask_shift: 16,
        green_mask_size: 8,
        green_mask_shift: 8,
        blue_mask_size: 8,
        blue_mask_shift: 0,
        reserved: [n as u8, 1, 2, 3, 4, 5, 6],
        edid_size: 128 * n,
        edid: 0x9000 + n as usize,
    }
}

fn answer_with(count: u64) -> LimineFramebufferResponse {
    let pointers: Vec<NonNullPtr<LimineFramebuffer>> = (0..count)
        .map(|n| NonNullPtr::new(0x5000 + 0x100 * n as usize, place(numbered(n))).unwrap())
        .collect();
    LimineFramebufferResponse::new(1, Box::leak(pointers.into_boxed_slice()))
}

#[test]
fn size_of_800_by_600_at_32_bits() {
    assert_eq!(surface(800, 600, 32).size(), 1_920_000);
    assert_eq!(surface(800, 600, 32).checked_size(), Some(1_920_000));
}

#[test]
fn size_counts_whole_bytes_per_pixel() {
    assert_eq!(surface(1024, 768, 24).size(), 1024 * 768 * 3);
    assert_eq!(surface(640, 480, 16).size(), 640 * 480 * 2);
    assert_eq!(surface(640, 480, 8).size(), 640 * 480);
    assert_eq!(surface(640, 480, 15).size(), 640 * 480);
    assert_eq!(surface(640, 480, 33).size(), 640 * 480 * 4);
}

#[test]
fn size_is_zero_without_a_whole_byte_per_pixel() {
    assert_eq!(surface(640, 480, 7).size(), 0);
    assert_eq!(surface(640, 480, 0).size(), 0);
    assert_eq!(surface(u64::MAX, u64::MAX, 4).checked_size(), Some(0));
}

#[test]
fn size_is_zero_for_an_empty_surface() {
    assert_eq!(surface(0, 600, 32).size(), 0);
    assert_eq!(surface(800, 0, 32).size(), 0);
    assert_eq!(surface(0, u64::MAX, 32).checked_size(), Some(0));
}

#[test]
fn checked_size_refuses_what_does_not_fit() {
    assert_eq!(surface(u64::MAX, u64::MAX, 32).checked_size(), None);
    assert_eq!(surface(u64::MAX, 1, 16).checked_size(), None);
    assert_eq!(surface(1 << 40, 1 << 40, 8).checked_size(), None);
}

#[test]
fn checked_size_reaches_the_largest_size() {
    let largest = surface(usize::MAX as u64, 1, 8);
    assert_eq!(largest.checked_size(), Some(usize::MAX));
    assert_eq!(largest.size(), usize::MAX);
}

#[test]
fn response_new_declares_the_array_length() {
    for count in [0u64, 1, 5] {
        let answer = answer_with(count);
        assert_eq!(answer.revision, 1);
        assert_eq!(answer.framebuffer_count, count);
        assert_eq!(answer.framebuffers.len() as u64, count);
    }
}

#[test]
fn no_framebuffers_declared_none_listed() {
    let answer = answer_with(0);
    let views = answer.framebuffers();
    assert!(views.is_empty());
    assert_eq!(views.len(), 0);
}

#[test]
fn framebuffers_listed_in_array_order() {
    let answer = answer_with(4);
    let views = answer.framebuffers();
    assert_eq!(views.len(), 4);
    for (n, view) in views.iter().enumerate() {
        let expected = numbered(n as u64);
        assert_eq!(view.address, expected.address);
        assert_eq!(view.width, expected.width);
        assert_eq!(view.height, expected.height);
        assert_eq!(view.pitch, expected.pitch);
        assert_eq!(view.bpp, expected.bpp);
        assert_eq!(view.memory_model, expected.memory_model);
        assert_eq!(view.red_mask_size, expected.red_mask_size);
        assert_eq!(view.red_mask_shift, expected.red_mask_shift);
        assert_eq!(view.green_mask_size, expected.green_mask_size);
        assert_eq!(view.green_mask_shift, expected.green_mask_shift);
        assert_eq!(view.blue_mask_size, expected.blue_mask_size);
        assert_eq!(view.blue_mask_shift, expected.blue_mask_shift);
        assert_eq!(view.reserved, expected.reserved);
        assert_eq!(view.edid_size, expected.edid_size);
        assert_eq!(view.edid, expected.edid);
    }
}

#[test]
fn framebuffers_are_views_not_copies() {
    let answer = answer_with(3);
    let views = answer.framebuffers();
    for (n, view) in views.iter().enumerate() {
        assert!(std::ptr::eq(*view, answer.framebuffers[n].get()));
        assert_eq!(answer.framebuffers[n].as_ptr(), 0x5000 + 0x100 * n);
    }
}

#[test]
fn single_framebuffer_is_listed_alone() {
    let answer = answer_with(1);
    let views = answer.framebuffers();
    assert_eq!(views.len(), 1);
    assert_eq!(views[0].width, 100);
    assert_eq!(views[0].size(), 400 * 200 * 4);
}

#[test]
fn discovery_from_request_to_sizes() {
    let mut request = LimineFramebufferRequest::new(0);
    assert!(request.get_response().get().is_none());
    let answer: &'static LimineFramebufferResponse = place(answer_with(2));
    request.write_response(NonNullPtr::new(0xb000, answer).unwrap());
    let response = request.get_response().get().unwrap();
    let sizes: Vec<usize> = response.framebuffers().iter().map(|f| f.size()).collect();
    assert_eq!(sizes, vec![400 * 200 * 4, 404 * 201 * 4]);
}
