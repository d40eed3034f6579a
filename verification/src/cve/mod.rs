pub mod osv_client;
