use las_points::byte_order::Endianness;
use las_points::cursor::{points_in_chunk, SeekFrom};
use las_points::decode::encode_natural;
use las_points::format::FormatDescriptor;
use las_points::laz_reader::{RawLAZReader, VlrKey};
use las_points::record::read_record;
use las_points::value::WorldPosition;
use laz::{LasZipCompressor, LasZipDecompressor, LazItemRecordBuilder, LazVlr};
use std::io::Cursor;

/// The bytes of record `i` of a stream, some different in every record.
fn on_disk(format: &FormatDescriptor, i: usize) -> Vec<u8> {
    let mut record: Vec<u8> = Vec::new();
    for k in 0..format.record_width() {
        record.push((17 * i + 29 * k + (i * k) % 7) as u8);
    }
    record
}

fn world(x: u32, y: u32, z: u32) -> WorldPosition {
    let x = x as f64 * 0.001 - 5.0;
    let y = y as f64 * 0.001 + 2.0;
    let z = z as f64 * 0.01;
    WorldPosition {
        x: x.to_bits(),
        y: y.to_bits(),
        z: z.to_bits(),
        single_x: (x as f32).to_bits(),
        single_y: (y as f32).to_bits(),
        single_z: (z as f32).to_bits(),
    }
}

/// Compresses a stream of records and returns the compressed bytes and the
/// data of the record of compression parameters.
fn compress(format_id: u8, data: &[u8]) -> (Vec<u8>, Vec<u8>) {
    let items = LazItemRecordBuilder::default_for_point_format_id(format_id, 0).unwrap();
    let vlr = LazVlr::from_laz_items(items);
    let mut record_data: Vec<u8> = Vec::new();
    vlr.write_to(&mut record_data).unwrap();
    let mut compressor = LasZipCompressor::new(Cursor::new(Vec::<u8>::new()), vlr).unwrap();
    compressor.compress_many(data).unwrap();
    compressor.done().unwrap();
    (compressor.into_inner().into_inner(), record_data)
}

#[test]
fn decompressed_chunks_decode_like_uncompressed_records() {
    for id in 0..=3u8 {
        let format = FormatDescriptor::new(id).unwrap();
        let stride = format.record_width();
        let mut data: Vec<u8> = Vec::new();
        let mut expected: Vec<Vec<u8>> = Vec::new();
        for i in 0..10 {
            let bytes = on_disk(&format, i);
            let (record, _) = read_record(&format, &bytes, 0);
            expected.push(encode_natural(
                &format,
                Endianness::Little,
                &record,
                &world(record.x, record.y, record.z),
            ));
            data.extend(bytes);
        }
        let (compressed, record_data) = compress(id, &data);
        let keys = vec![
            VlrKey { user_id: "LASF_Projection".to_string(), record_id: 34735 },
            VlrKey { user_id: "laszip encoded".to_string(), record_id: 22204 },
        ];
        let (mut reader, index) =
            RawLAZReader::new(id, Endianness::Little, 10, stride as u16, &keys).unwrap();
        assert_eq!(index, 1);
        reader.set_chunk_size(4);
        let vlr = LazVlr::from_buffer(&record_data).unwrap();
        let mut decompressor = LasZipDecompressor::new(Cursor::new(compressed), vlr).unwrap();

        let sought = reader.seek_point(SeekFrom::Current(3)).unwrap();
        assert_eq!(sought.index, 3);
        decompressor.seek(sought.reposition.unwrap()).unwrap();

        let total = reader.state().num_points_to_read(100);
        assert_eq!(total, 7);
        let mut found: Vec<u8> = Vec::new();
        let mut done = 0;
        while done < total {
            let points = points_in_chunk(total, reader.state().chunk_size(), done);
            let mut chunk: Vec<u8> = vec![0; points * stride];
            decompressor.decompress_many(&mut chunk).unwrap();
            let mut positions: Vec<WorldPosition> = Vec::new();
            for point in 0..points {
                let (record, _) = read_record(reader.state().format(), &chunk, point * stride);
                positions.push(world(record.x, record.y, record.z));
            }
            found.extend(reader.state().read_chunk_default_layout(&chunk, &positions, points));
            done += points;
        }
        reader.advance(total);
        assert_eq!(reader.remaining_points(), 0);
        assert_eq!(found, expected[3..].concat(), "format {}", id);
    }
}
