pub mod answers;
pub mod controllers;
pub mod ids;
pub mod lists;
pub mod middlewares;
pub mod model;
pub mod reply;
pub mod routes;
pub mod startup;
pub mod table;
pub mod text;
pub mod time;
pub mod utils;
pub mod ws;
