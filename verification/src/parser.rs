pub mod attribute_info;
pub mod classfile;
pub mod cp_info;
pub mod cp_info_resolved;
pub mod field_info;
pub mod member;
pub mod method_info;
pub mod record;
