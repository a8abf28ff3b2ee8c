use r2wraith::ports::{PortError, TcpPortTable, UdpPortTable, NO_ERROR};

fn tcp_row(port: u16) -> Vec<u8> {
    let mut row = Vec::new();
    row.extend_from_slice(&2u32.to_le_bytes());
    row.extend_from_slice(&[127, 0, 0, 1]);
    row.extend_from_slice(&port.to_be_bytes());
    row.extend_from_slice(&[0, 0]);
    row.extend_from_slice(&[10, 0, 0, 7]);
    row.extend_from_slice(&[0x1f, 0x90, 0, 0]);
    row
}

fn udp_row(port: u16) -> Vec<u8> {
    let mut row = vec![0, 0, 0, 0];
    row.extend_from_slice(&port.to_be_bytes());
    row.extend_from_slice(&[0, 0]);
    row
}

fn table(count: u32, rows: &[Vec<u8>]) -> Vec<u8> {
    let mut buffer = count.to_le_bytes().to_vec();
    for row in rows {
        buffer.extend_from_slice(row);
    }
    buffer
}

fn tcp_ports(buffer: Vec<u8>) -> Vec<u16> {
    let table = TcpPortTable::new(NO_ERROR, buffer).unwrap();
    let mut rows = table.iter();
    let mut ports = Vec::new();
    while let Some(port) = rows.next() {
        ports.push(port);
    }
    assert_eq!(rows.next(), None);
    ports
}

fn udp_ports(buffer: Vec<u8>) -> Vec<u16> {
    let table = UdpPortTable::new(NO_ERROR, buffer).unwrap();
    let mut rows = table.iter();
    let mut ports = Vec::new();
    while let Some(port) = rows.next() {
        ports.push(port);
    }
    assert_eq!(rows.next(), None);
    ports
}

#[test]
fn the_tcp_table_lists_the_local_ports_of_its_rows() {
    let buffer = table(3, &[tcp_row(80), tcp_row(37015), tcp_row(65535)]);
    assert_eq!(tcp_ports(buffer), vec![80, 37015, 65535]);
}

#[test]
fn the_udp_table_lists_the_local_ports_of_its_rows() {
    let buffer = table(4, &[udp_row(53), udp_row(37015), udp_row(0), udp_row(256)]);
    assert_eq!(udp_ports(buffer), vec![53, 37015, 0, 256]);
}

#[test]
fn a_port_is_read_with_its_higher_byte_first() {
    let mut buffer = table(1, &[udp_row(0)]);
    buffer[8] = 0x90;
    buffer[9] = 0x1f;
    assert_eq!(udp_ports(buffer), vec![0x901f]);
    let mut buffer = table(1, &[tcp_row(0)]);
    buffer[12] = 0x01;
    buffer[13] = 0x02;
    assert_eq!(tcp_ports(buffer), vec![0x0102]);
}

#[test]
fn a_table_without_rows_lists_nothing() {
    assert_eq!(tcp_ports(table(0, &[])), Vec::<u16>::new());
    assert_eq!(udp_ports(table(0, &[])), Vec::<u16>::new());
}

#[test]
fn what_stands_behind_the_rows_does_not_count() {
    let buffer = table(1, &[tcp_row(80), tcp_row(81)]);
    assert_eq!(tcp_ports(buffer), vec![80]);
    let buffer = table(1, &[udp_row(53), vec![1, 2, 3]]);
    assert_eq!(udp_ports(buffer), vec![53]);
}

#[test]
fn a_table_that_the_system_refused_is_no_table() {
    let buffer = table(1, &[tcp_row(80)]);
    assert_eq!(TcpPortTable::new(122, buffer), Err(PortError::GetTableFailed));
    let buffer = table(1, &[udp_row(53)]);
    assert_eq!(UdpPortTable::new(1, buffer), Err(PortError::GetTableFailed));
}

#[test]
fn a_table_that_is_cut_short_is_no_table() {
    let mut buffer = table(2, &[tcp_row(80), tcp_row(81)]);
    buffer.pop();
    assert_eq!(TcpPortTable::new(NO_ERROR, buffer), Err(PortError::GetTableFailed));
    let buffer = table(2, &[udp_row(53)]);
    assert_eq!(UdpPortTable::new(NO_ERROR, buffer), Err(PortError::GetTableFailed));
    assert_eq!(TcpPortTable::new(NO_ERROR, vec![]), Err(PortError::GetTableFailed));
    assert_eq!(UdpPortTable::new(NO_ERROR, vec![0, 0, 0]), Err(PortError::GetTableFailed));
    assert_eq!(
        TcpPortTable::new(NO_ERROR, vec![0xff, 0xff, 0xff, 0xff]),
        Err(PortError::GetTableFailed)
    );
}

#[test]
fn the_count_is_read_with_its_lowest_byte_first() {
    let rows: Vec<Vec<u8>> = (0..300u16).map(udp_row).collect();
    let buffer = table(300, &rows);
    assert_eq!(buffer[..4], [0x2c, 0x01, 0, 0]);
    assert_eq!(udp_ports(buffer), (0..300u16).collect::<Vec<_>>());
}

#[test]
fn the_port_error_says_what_went_wrong() {
    assert_eq!(PortError::GetTableFailed.message(), "Could not list open ports");
}
