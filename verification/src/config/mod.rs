pub mod system_config;
