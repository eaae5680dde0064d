//! Bootstrapping the full mesh of connections among a square matrix of
//! foreign clients: one handshake per unordered chain pair, the mirrored
//! entry derived by flipping sides rather than handshaking again.

use vstd::prelude::*;

use crate::errors::RelayError;

verus! {

/// A client on one chain tracking another, as the bootstrap reads it.
#[derive(Clone, Copy, Debug, PartialEq, Eq, Structural)]
pub struct ForeignClient {
    /// The chain hosting the client.
    pub host_chain: u64,
    /// The chain the client tracks.
    pub tracked_chain: u64,
    pub client_id: u64,
}

/// An established connection between two chains, read from side A.
#[derive(Clone, Copy, Debug, PartialEq, Eq, Structural)]
pub struct ConnectedConnection {
    pub chain_a: u64,
    pub chain_b: u64,
    pub client_id_a: u64,
    pub client_id_b: u64,
    pub connection_id_a: u64,
    pub connection_id_b: u64,
}

/// The same connection read from the other side.
pub open spec fn spec_flip(c: ConnectedConnection) -> ConnectedConnection {
    ConnectedConnection {
        chain_a: c.chain_b,
        chain_b: c.chain_a,
        client_id_a: c.client_id_b,
        client_id_b: c.client_id_a,
        connection_id_a: c.connection_id_b,
        connection_id_b: c.connection_id_a,
    }
}

impl ConnectedConnection {
    /// Swap the two sides.
    pub fn flip(self) -> (r: ConnectedConnection)
        ensures
            r == spec_flip(self),
    {
        ConnectedConnection {
            chain_a: self.chain_b,
            chain_b: self.chain_a,
            client_id_a: self.client_id_b,
            client_id_b: self.client_id_a,
            connection_id_a: self.connection_id_b,
            connection_id_b: self.connection_id_a,
        }
    }
}

/// Performs one connection handshake between two foreign clients; the
/// host environment implements this against real chains. Every handshake
/// performed is recorded, in order, in the bootstrapper's log, so callers
/// can state which client pair each connection came from.
pub trait ConnectionBootstrapper {
    spec fn bootstrap_log(&self) -> Seq<(ForeignClient, ForeignClient, ConnectedConnection)>;

    fn bootstrap_connection(
        &mut self,
        client_b_to_a: &ForeignClient,
        client_a_to_b: &ForeignClient,
    ) -> (r: Result<ConnectedConnection, RelayError>)
        ensures
            r matches Ok(connection) ==> final(self).bootstrap_log() == old(self).bootstrap_log().push((*client_b_to_a, *client_a_to_b, connection)),
            r is Err ==> final(self).bootstrap_log() == old(self).bootstrap_log(),
    ;
}

/// Whether the bootstrap log holds, at or after position `from`, an entry
/// recording that `connection` came from handshaking `counter_client`
/// with `own_client`.
pub open spec fn logged(
    log: Seq<(ForeignClient, ForeignClient, ConnectedConnection)>,
    from: int,
    counter_client: ForeignClient,
    own_client: ForeignClient,
    connection: ConnectedConnection,
) -> bool {
    exists|k: int|
        from <= k < log.len() && log[k] == (counter_client, own_client, connection)
}

/// A recorded handshake stays recorded when the log grows at the end.
proof fn lemma_logged_extends(
    log: Seq<(ForeignClient, ForeignClient, ConnectedConnection)>,
    longer: Seq<(ForeignClient, ForeignClient, ConnectedConnection)>,
    from: int,
    counter_client: ForeignClient,
    own_client: ForeignClient,
    connection: ConnectedConnection,
)
    requires
        0 <= from,
        logged(log, from, counter_client, own_client, connection),
        log.len() <= longer.len(),
        forall|k: int| 0 <= k < log.len() ==> longer[k] == log[k],
    ensures
        logged(longer, from, counter_client, own_client, connection),
{
    let k = choose|k: int|
        from <= k < log.len() && log[k] == (counter_client, own_client, connection);
    assert(from <= k < log.len() && log[k] == (counter_client, own_client, connection));
    assert(longer[k] == (counter_client, own_client, connection));
}

/// A full mesh of connections, indexed by the two chains' positions.
pub struct DynamicConnectedConnections {
    pub connections: Vec<Vec<ConnectedConnection>>,
}

/// A full mesh of a size fixed at compile time.
pub struct ConnectedConnections<const SIZE: usize> {
    pub connections: Vec<Vec<ConnectedConnection>>,
}

/// Whether every row of the matrix has the same length as the matrix.
pub open spec fn is_square(m: Seq<Vec<ForeignClient>>) -> bool {
    forall|i: int| 0 <= i < m.len() ==> (#[trigger] m[i])@.len() == m.len()
}

/// Bootstrap connections among every pair of chains in the client matrix:
/// one handshake for each pair `(i, j)` with `i <= j`, the mirrored entry
/// filled by flipping the one already made. A non-square matrix is
/// refused.
pub fn bootstrap_connections_dynamic<B: ConnectionBootstrapper>(
    foreign_clients: &Vec<Vec<ForeignClient>>,
    bootstrapper: &mut B,
) -> (r: Result<DynamicConnectedConnections, RelayError>)
    ensures
        !is_square(foreign_clients@) ==> r == Err::<DynamicConnectedConnections, RelayError>(
            RelayError::DimensionMismatch,
        ),
        r matches Ok(mesh) ==> {
            &&& mesh.connections@.len() == foreign_clients@.len()
            &&& (forall|i: int|
                0 <= i < mesh.connections@.len() ==> (#[trigger] mesh.connections@[i])@.len()
                    == foreign_clients@.len())
            &&& (forall|i: int, j: int|
                0 <= j < i < mesh.connections@.len() ==> #[trigger] mesh.connections@[i]@[j]
                    == spec_flip(mesh.connections@[j]@[i]))
            &&& (forall|i: int, j: int|
                0 <= i <= j < mesh.connections@.len() ==> logged(
                    final(bootstrapper).bootstrap_log(),
                    old(bootstrapper).bootstrap_log().len() as int,
                    foreign_clients@[j]@[i],
                    foreign_clients@[i]@[j],
                    #[trigger] mesh.connections@[i]@[j],
                ))
        },
        final(bootstrapper).bootstrap_log().len() >= old(bootstrapper).bootstrap_log().len(),
        forall|k: int|
            0 <= k < old(bootstrapper).bootstrap_log().len() ==> #[trigger] final(bootstrapper).bootstrap_log()[k] == old(bootstrapper).bootstrap_log()[k],
{
    let ghost base = bootstrapper.bootstrap_log();
    let size = foreign_clients.len();
    let mut i: usize = 0;
    while i < size
        invariant
            i <= size,
            size == foreign_clients@.len(),
            base == old(bootstrapper).bootstrap_log(),
            base == bootstrapper.bootstrap_log(),
            forall|t: int| 0 <= t < i ==> (#[trigger] foreign_clients@[t])@.len() == size,
        decreases size - i,
    {
        if foreign_clients[i].len() != size {
            return Err(RelayError::DimensionMismatch);
        }
        i = i + 1;
    }
    let mut connections: Vec<Vec<ConnectedConnection>> = Vec::new();
    let mut row: usize = 0;
    while row < size
        invariant
            row <= size,
            size == foreign_clients@.len(),
            is_square(foreign_clients@),
            connections@.len() == row,
            base == old(bootstrapper).bootstrap_log(),
            bootstrapper.bootstrap_log().len() >= base.len(),
            forall|k: int|
                0 <= k < base.len() ==> #[trigger] bootstrapper.bootstrap_log()[k] == base[k],
            forall|t: int|
                0 <= t < row ==> (#[trigger] connections@[t])@.len() == size,
            forall|t: int, u: int|
                0 <= u < t < row ==> #[trigger] connections@[t]@[u] == spec_flip(
                    connections@[u]@[t],
                ),
            forall|t: int, u: int|
                0 <= t <= u < size && t < row ==> logged(
                    bootstrapper.bootstrap_log(),
                    base.len() as int,
                    foreign_clients@[u]@[t],
                    foreign_clients@[t]@[u],
                    #[trigger] connections@[t]@[u],
                ),
        decreases size - row,
    {
        let mut row_connections: Vec<ConnectedConnection> = Vec::new();
        let mut col: usize = 0;
        while col < size
            invariant
                col <= size,
                row < size,
                size == foreign_clients@.len(),
                is_square(foreign_clients@),
                connections@.len() == row,
                base == old(bootstrapper).bootstrap_log(),
                bootstrapper.bootstrap_log().len() >= base.len(),
                forall|k: int|
                    0 <= k < base.len() ==> #[trigger] bootstrapper.bootstrap_log()[k] == base[k],
                forall|t: int|
                    0 <= t < row ==> (#[trigger] connections@[t])@.len() == size,
                forall|t: int, u: int|
                    0 <= u < t < row ==> #[trigger] connections@[t]@[u] == spec_flip(
                        connections@[u]@[t],
                    ),
                forall|t: int, u: int|
                    0 <= t <= u < size && t < row ==> logged(
                        bootstrapper.bootstrap_log(),
                        base.len() as int,
                        foreign_clients@[u]@[t],
                        foreign_clients@[t]@[u],
                        #[trigger] connections@[t]@[u],
                    ),
                row_connections@.len() == col,
                forall|u: int|
                    0 <= u < col && u < row ==> #[trigger] row_connections@[u] == spec_flip(
                        connections@[u]@[row as int],
                    ),
                forall|u: int|
                    row <= u < col ==> logged(
                        bootstrapper.bootstrap_log(),
                        base.len() as int,
                        foreign_clients@[u]@[row as int],
                        foreign_clients@[row as int]@[u],
                        #[trigger] row_connections@[u],
                    ),
            decreases size - col,
        {
            if row <= col {
                let counter_client = &foreign_clients[col][row];
                let own_client = &foreign_clients[row][col];
                let ghost log_before = bootstrapper.bootstrap_log();
                let connection = match bootstrapper.bootstrap_connection(
                    counter_client,
                    own_client,
                ) {
                    Ok(c) => c,
                    Err(error) => {
                        return Err(error);
                    },
                };
                proof {
                    let grown = bootstrapper.bootstrap_log();
                    assert(grown[log_before.len() as int] == (
                    foreign_clients@[col as int]@[row as int],
                    foreign_clients@[row as int]@[col as int],
                    connection,
                    ));
                    assert(logged(
                        grown,
                        base.len() as int,
                        foreign_clients@[col as int]@[row as int],
                        foreign_clients@[row as int]@[col as int],
                        connection,
                    ));
                    assert forall|t: int, u: int|
                        0 <= t <= u < size && t < row implies logged(
                        grown,
                        base.len() as int,
                        foreign_clients@[u]@[t],
                        foreign_clients@[t]@[u],
                        #[trigger] connections@[t]@[u],
                    ) by {
                        lemma_logged_extends(
                            log_before,
                            grown,
                            base.len() as int,
                            foreign_clients@[u]@[t],
                            foreign_clients@[t]@[u],
                            connections@[t]@[u],
                        );
                    }
                    assert forall|u: int| row <= u < col implies logged(
                        grown,
                        base.len() as int,
                        foreign_clients@[u]@[row as int],
                        foreign_clients@[row as int]@[u],
                        #[trigger] row_connections@[u],
                    ) by {
                        lemma_logged_extends(
                            log_before,
                            grown,
                            base.len() as int,
                            foreign_clients@[u]@[row as int],
                            foreign_clients@[row as int]@[u],
                            row_connections@[u],
                        );
                    }
                }
                row_connections.push(connection);
            } else {
                let counter_connection = connections[col][row];
                row_connections.push(counter_connection.flip());
            }
            col = col + 1;
        }
        connections.push(row_connections);
        col = 0;
        row = row + 1;
    }
    Ok(DynamicConnectedConnections { connections })
}

/// Bootstrap a fixed-size full mesh of connections: the dynamic bootstrap
/// with the dimensions fixed at compile time.
pub fn bootstrap_connections<B: ConnectionBootstrapper, const SIZE: usize>(
    foreign_clients: &Vec<Vec<ForeignClient>>,
    bootstrapper: &mut B,
) -> (r: Result<ConnectedConnections<SIZE>, RelayError>)
    requires
        foreign_clients@.len() == SIZE,
        is_square(foreign_clients@),
    ensures
        r matches Ok(mesh) ==> {
            &&& mesh.connections@.len() == SIZE
            &&& (forall|i: int|
                0 <= i < mesh.connections@.len() ==> (#[trigger] mesh.connections@[i])@.len()
                    == SIZE)
            &&& (forall|i: int, j: int|
                0 <= j < i < mesh.connections@.len() ==> #[trigger] mesh.connections@[i]@[j]
                    == spec_flip(mesh.connections@[j]@[i]))
            &&& (forall|i: int, j: int|
                0 <= i <= j < mesh.connections@.len() ==> logged(
                    final(bootstrapper).bootstrap_log(),
                    old(bootstrapper).bootstrap_log().len() as int,
                    foreign_clients@[j]@[i],
                    foreign_clients@[i]@[j],
                    #[trigger] mesh.connections@[i]@[j],
                ))
        },
        final(bootstrapper).bootstrap_log().len() >= old(bootstrapper).bootstrap_log().len(),
        forall|k: int|
            0 <= k < old(bootstrapper).bootstrap_log().len() ==> #[trigger] final(bootstrapper).bootstrap_log()[k] == old(bootstrapper).bootstrap_log()[k],
{
    let mesh = bootstrap_connections_dynamic(foreign_clients, bootstrapper)?;
    Ok(ConnectedConnections { connections: mesh.connections })
}

} // verus!
