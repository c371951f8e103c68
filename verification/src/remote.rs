pub mod http_step;
