//! Request attributes as the host stores them: property paths, the errors of
//! reading and writing them, typed values, and the flattening of a service's
//! metadata into attributes.

pub mod attribute;
pub mod property;

pub use attribute::get_attribute;
pub use attribute::AttributeValue;
pub use property::Path as PropertyPath;
