use htmlelement::cssstyledeclaration::{CSSModificationAccess, CSSStyleDeclaration};
use htmlelement::js::ObjectId;

#[test]
fn read_write_declaration_is_not_read_only() {
    let decl = CSSStyleDeclaration::new(ObjectId(4), CSSModificationAccess::ReadWrite);
    assert_eq!(decl, CSSStyleDeclaration { owner: ObjectId(4), readonly: false });
}

#[test]
fn read_only_declaration_is_read_only() {
    let decl = CSSStyleDeclaration::new(ObjectId(4), CSSModificationAccess::Readonly);
    assert_eq!(decl, CSSStyleDeclaration { owner: ObjectId(4), readonly: true });
}
