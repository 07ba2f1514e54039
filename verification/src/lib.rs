pub mod associated_function;
pub mod borrowing;
pub mod closures;
pub mod debug_display;
pub mod dynamic_dispatch;
pub mod enums;
pub mod flow_control;
pub mod from_into_conversion;
pub mod generator;
pub mod generics;
pub mod hashmap;
pub mod iterators;
pub mod lifetimes;
pub mod methods;
pub mod option_enum;
pub mod ownership;
pub mod pattern_match;
pub mod result_class;
pub mod slices;
pub mod strings;
pub mod structs;
pub mod trait_object;
pub mod traits;
pub mod tuples;
pub mod vectors;
