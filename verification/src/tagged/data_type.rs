pub use crate::untagged::data_type::{DataType, StoredType};
