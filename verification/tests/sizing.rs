use arbiter::clerk::Clerk;
use arbiter::document::Document;

#[test]
fn clerk_space_exact() {
    // 8 discriminator + 32 authority + 4 prefix + 32 * slots + 1 + 1.
    assert_eq!(Clerk::space(0), 46);
    assert_eq!(Clerk::space(1), 78);
    assert_eq!(Clerk::space(10), 366);
}

#[test]
fn clerk_space_step_is_slot_size() {
    for c in 1..20usize {
        assert_eq!(Clerk::space(c + 1) - Clerk::space(c), 32);
    }
}

#[test]
fn document_space_exact() {
    // 8 + 32 + (4 + title) + (4 + uri) + 8 + (4 + 32p) + (4 + 8p) + 8 + 1.
    assert_eq!(Document::space(4, 33, 1), 150);
    assert_eq!(Document::space(1, 0, 0), 74);
}

#[test]
fn document_space_step_is_participant_size() {
    for p in 0..10usize {
        assert_eq!(
            Document::space(7, 20, p + 1) - Document::space(7, 20, p),
            40
        );
    }
}
