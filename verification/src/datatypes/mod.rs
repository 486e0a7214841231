pub mod arrow_field_vector;
pub mod arrow_types;
pub mod arrow_vector_builder;
pub mod column_vector;
pub mod csv_text;
pub mod literal_value_vector;
pub mod record_batch;
pub mod scalar;
pub mod schema;
