//! Collections of parsed records together with batch metadata.

use vstd::prelude::*;

verus! {

/// A generic collection of records with metadata about the batch that
/// produced them.  Records keep the order in which they were emitted.
pub struct RecordsCollection<T> {
    pub records: Vec<T>,
    pub source_file: Option<String>,
    pub processing_time_ms: Option<u128>,
    pub zipfile_size_bytes: Option<u64>,
    pub number_of_files: Option<usize>,
}

impl<T> RecordsCollection<T> {
    /// Creates a new, empty collection with no metadata set.
    pub fn new() -> (r: Self)
        ensures
            r.records@ =~= Seq::<T>::empty(),
            r.source_file is None,
            r.processing_time_ms is None,
            r.zipfile_size_bytes is None,
            r.number_of_files is None,
    {
        RecordsCollection {
            records: Vec::new(),
            source_file: None,
            processing_time_ms: None,
            zipfile_size_bytes: None,
            number_of_files: None,
        }
    }

    /// Extends the collection with a vector of records, keeping order.
    pub fn add_records(&mut self, new_records: Vec<T>)
        ensures
            final(self).records@ == old(self).records@ + new_records@,
            final(self).source_file == old(self).source_file,
            final(self).processing_time_ms == old(self).processing_time_ms,
            final(self).zipfile_size_bytes == old(self).zipfile_size_bytes,
            final(self).number_of_files == old(self).number_of_files,
    {
        let mut new_records = new_records;
        self.records.append(&mut new_records);
    }

    /// Sets the source file metadata.
    pub fn set_source_file(&mut self, file_name: String)
        ensures
            final(self).source_file == Some(file_name),
            final(self).records == old(self).records,
            final(self).processing_time_ms == old(self).processing_time_ms,
            final(self).zipfile_size_bytes == old(self).zipfile_size_bytes,
            final(self).number_of_files == old(self).number_of_files,
    {
        self.source_file = Some(file_name);
    }

    /// Sets the processing time metadata.
    pub fn set_processing_time(&mut self, time_ms: u128)
        ensures
            final(self).processing_time_ms == Some(time_ms),
            final(self).records == old(self).records,
            final(self).source_file == old(self).source_file,
            final(self).zipfile_size_bytes == old(self).zipfile_size_bytes,
            final(self).number_of_files == old(self).number_of_files,
    {
        self.processing_time_ms = Some(time_ms);
    }

    /// Sets the zipfile size metadata.
    pub fn set_zipfile_size(&mut self, size_bytes: u64)
        ensures
            final(self).zipfile_size_bytes == Some(size_bytes),
            final(self).records == old(self).records,
            final(self).source_file == old(self).source_file,
            final(self).processing_time_ms == old(self).processing_time_ms,
            final(self).number_of_files == old(self).number_of_files,
    {
        self.zipfile_size_bytes = Some(size_bytes);
    }

    /// Sets the number of files metadata.
    pub fn set_number_of_files(&mut self, count: usize)
        ensures
            final(self).number_of_files == Some(count),
            final(self).records == old(self).records,
            final(self).source_file == old(self).source_file,
            final(self).processing_time_ms == old(self).processing_time_ms,
            final(self).zipfile_size_bytes == old(self).zipfile_size_bytes,
    {
        self.number_of_files = Some(count);
    }
}

} // verus!
