pub mod data;
pub mod english_to_latin;
pub mod formatter;
pub mod key_translator;
pub mod latin_to_english;
pub mod numbers;
pub mod principle_part_generator;
pub mod text;
pub mod translate;
pub mod trick_list;
pub mod tricks;
pub mod use_data;
pub mod word_mods;
