//! What a synchronisation run is configured with.

use crate::text::{copy_text, text_view};
use vstd::prelude::*;

verus! {

/// One remote feed and the local table that mirrors it.
#[derive(Debug, Clone, PartialEq, Eq)]
pub struct DataSourceConfiguration {
    pub table_name: String,
    pub container_id: u64,
    pub data_source_id: u64,
    pub timestamp_column_name: String,
    pub secondary_index: Option<String>,
    pub initial_timestamp: Option<String>,
    pub initial_index_start: Option<u64>,
}

/// A `DataSourceConfiguration` with its text as sequences of characters.
pub struct DataSourceView {
    pub table_name: Seq<char>,
    pub container_id: u64,
    pub data_source_id: u64,
    pub timestamp_column_name: Seq<char>,
    pub secondary_index: Option<Seq<char>>,
    pub initial_timestamp: Option<Seq<char>>,
    pub initial_index_start: Option<u64>,
}

impl View for DataSourceConfiguration {
    type V = DataSourceView;

    open spec fn view(&self) -> DataSourceView {
        DataSourceView {
            table_name: self.table_name@,
            container_id: self.container_id,
            data_source_id: self.data_source_id,
            timestamp_column_name: self.timestamp_column_name@,
            secondary_index: text_view(self.secondary_index),
            initial_timestamp: text_view(self.initial_timestamp),
            initial_index_start: self.initial_index_start,
        }
    }
}

impl DataSourceConfiguration {
    /// A copy of the descriptor.
    pub fn duplicate(&self) -> (r: DataSourceConfiguration)
        ensures
            r@ == self@,
    {
        DataSourceConfiguration {
            table_name: self.table_name.clone(),
            container_id: self.container_id,
            data_source_id: self.data_source_id,
            timestamp_column_name: self.timestamp_column_name.clone(),
            secondary_index: copy_text(&self.secondary_index),
            initial_timestamp: copy_text(&self.initial_timestamp),
            initial_index_start: self.initial_index_start,
        }
    }
}

/// The settings of a run: where the service and the store are, how long rows
/// are kept, and which feeds are mirrored, in order.
#[derive(Debug, Clone, PartialEq, Eq)]
pub struct Configuration {
    pub api_key: Option<String>,
    pub api_secret: Option<String>,
    pub deeplynx_url: String,
    pub db_path: String,
    pub refresh_interval: u64,
    pub data_retention_days: u32,
    pub target_data_source_id: Option<u64>,
    pub target_container_id: Option<u64>,
    pub debug: Option<bool>,
    pub data_sources: Vec<DataSourceConfiguration>,
}

/// The data sources of a configuration, each taken by its view.
pub open spec fn sources_view(sources: Seq<DataSourceConfiguration>) -> Seq<DataSourceView> {
    sources.map_values(|d: DataSourceConfiguration| d@)
}

} // verus!
