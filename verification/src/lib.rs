pub mod types;
pub mod sound_generator;
pub mod assembler;
pub mod apu;
pub mod sm83;
pub mod instructions;
pub mod cpu;
pub mod gbs_file;
pub mod gbs_player;
pub mod midiapu;
