//! The raw limb data of permutation width 16: the `(8 + 64) * 16`
//! additive round constants and the `16 * 16` row-major mixing matrix,
//! each entry a canonical field value below the modulus, little-endian in
//! four 64-bit limbs.

use vstd::prelude::*;

verus! {

use vstd::slice::slice_to_vec;

const C_T16: [[u64; 4]; 1152] = [
    [16006408399177691393, 12067602131702238473, 5234082817348455662, 1288730602680325705],
    [888317668976122725, 6899327675936261492, 16598596149598399228, 2260868703764892303],
    [15495321068950629848, 5198083068361834012, 13672827716486911845, 1135436712253805134],
    [13866592379068976502, 4786126984929877453, 10073865243518683916, 738723992587342519],
    [7448573302768183749, 13779109411303005743, 10988406325855349612, 3296807771064045909],
    [16460054466848989320, 15093231500418912307, 3669766850525926733, 1174192939307640389],
    [5700305380598425240, 8879851551916496648, 9779569864754246147, 1331484429990718675],
    [1063288793361575245, 2161109785436838547, 15853509750216538318, 3244664236948144961],
    [4899479293614227724, 17585536445653519732, 3087538321679033463, 310701928782373054],
    [17331142368339925960, 9984245691355993799, 3134880706920553163, 3112036292557001584],
    [17187744078722884139, 15204936476223721716, 6183985366031828747, 561792416174070164],
    [2954264668827017745, 16521518234084826927, 5688693494102226826, 1379918510859675837],
    [10564075005553377504, 8825222187114486061, 8106734150837358155, 378338929265155980],
    [17583971108376792130, 9696717084430509979, 12842750278460435705, 414577678411757789],
    [1563081991737854897, 11632425391639190868, 13122491633359426649, 2668568381200857449],
    [12878862079116645074, 16830116880211460457, 16660743724072687867, 2760087272431242407],
    [3056539923081944499, 124399566242500873, 8520462748944015968, 3067949862798898709],
    [2905568716850348044, 13956779467001584559, 5382499066052845921, 2688428025195104894],
    [14605369974992480968, 4423137250960001837, 13799998118933350549, 324286209740672602],
    [4454748461473617439, 8201232980252823662, 4032005735858472782, 2265742603950970004],
    [6942852249004239008, 2438236210970448691, 2530148070027264191, 3139698815555087739],
    [8097500089061688006, 7949022733600392955, 15576088584226929351, 1555749909194933710],
    [9210277415033579286, 9520155668198930906, 9006451205961359766, 2129176114357290640],
    [11481950824014046768, 10524116197257612611, 9390489465565892921, 1978730505934413648],
    [3211013850348974763, 11527208291231261933, 6473270813435049745, 2842791816514738899],
    [114929073466203004, 16542578860245697006, 1210315655339514762, 1899753268320683558],
    [5166431156644637949, 11176990415730911258, 521530294003389460, 1838162654646264290],
    [11469314658543969526, 9606666091782020926, 18385704024193637521, 2989418138308945655],
    [15866320826554049550, 12327938811837999270, 12716114343494319435, 140695941828006531],
    [13637402755016749362, 18384957597500745404, 15444512031297662056, 1620431023619521494],
    [11462011199516319887, 12023373487367156767, 11471471255518308520, 602666172624603842],
    [17882095664014682701, 16330284675050864446, 13935611447323038666, 356740907307478229],
    [12186728032083158805, 3011484260801554043, 15249800607061185011, 1336811542196088983],
    [12439908272198848545, 15269005960653730837, 4368401989889530623, 2882885253937400595],
    [17182271386670095554, 1026182284331143644, 14584338590908444734, 2328052902853740279],
    [285759286786905990, 2767178025988096555, 18263052681258004759, 3477535310229235124],
    [10637333905949378556, 15211021041476252610, 16678958373267099194, 2573666964535861291],
    [7844210583327133383, 1901215680963088926, 8575926378198445433, 1095815158757474733],
    [1271430979207892708, 9891048423390141254, 10841465711060606007, 1037991836384351365],
    [4420575457529470451, 8547343021837826142, 13648371206782326370, 497724950500427307],
    [8739307543045586987, 3205839060923431157, 10827264507984147836, 1684646629542680527],
    [14627151616476723655, 18318244645929381002, 8599229433716708792, 2609970972519004572],
    [3127419369618875248, 11711508656287702294, 496331024569676312, 2250816286568493098],
    [7680305065111416777, 8411610932405812209, 4175301892378973199, 798209320057756387],
    [16495143466194009858, 1858667981475087439, 6254732819686133079, 3202937169925424156],
    [8811657773336040811, 13741790208347759857, 10320807516765532542, 676032433235110512],
    [8501953482125153178, 2259007740894887468, 1829570936965529301, 2229204437046053289],
    [6428982622333387043, 12663440210212141216, 4458870059140011688, 216058862303341742],
    [12256245504367669745, 18235038890245862446, 15936832577089993016, 2982895607262257398],
    [817887317923967056, 10949771463652133411, 9909783685747001462, 3287600536320126393],
    [7921760328578887570, 383444908830055097, 4078088799461965932, 339111328755096943],
    [11918616994446328462, 18149233201553755074, 13396336861916862008, 1416650311315520851],
    [18309194039926561663, 17124907375755674562, 16259496830622504769, 1762529134971295328],
    [15637075952821490545, 7668717828957383674, 1618802926420175647, 988444563640140242],
    [12803116996964427715, 5234353246959222096, 10714740661889420730, 127628800017024907],
    [2235306650915842131, 15282543250091555205, 14059288570843223988, 2061722453195312541],
    [4983804043867449642, 9851665052818095946, 7398118304144241801, 213787786644020204],
    [17365911206833195204, 9315013861400771877, 15241567555408797557, 1781587732475680826],
    [13243012405208292705, 3017177883270195662, 3122481264367229610, 2948481394859355025],
    [4581814376447053441, 2830380047291073472, 15466705362392739820, 2803994184030267889],
    [4947020605053660437, 10736262312500580265, 7447731065924300818, 77009211779158341],
    [12045613280998534387, 13458478514133227327, 11648516736506640003, 1607561555855456765],
    [9847082541376517029, 13541047176651847623, 5653620512783751136, 1599369174438818679],
    [4725628834346832306, 14091766127713801992, 9617077445604935053, 306624446981365018],
    [1444725617790183710, 16288179159630744326, 11262020873033984230, 345370188562273052],
    [2454063581563061458, 16663075019993415581, 4151337844915293876, 2732365698317336956],
    [1330793969163003766, 11301452299126013377, 5784068132887447144, 747702541132983223],
    [1602913028786121816, 13928957562490245194, 10378304053096101556, 770957902237006972],
    [11049141181614527270, 3545552155420849651, 10446461720699548171, 1014534546022653295],
    [13476120991353407402, 7020310169331656538, 9285371499796588586, 313811460315075052],
    [16177290384619579760, 16239365533788641381, 10475471465108510559, 1744287769438031035],
    [2554705291322629980, 17735340317455105749, 8820664205222746948, 2322064959818333772],
    [7586845668074896191, 61033789505526710, 3326714112908080394, 3030976902541520115],
    [16558577451684758090, 2891195777290417102, 9515788341860821509, 1396319380392222117],
    [11028465170063712107, 13420967464888555034, 584824670860704754, 1514865705025876842],
    [5481646987347983667, 8852696166037359158, 8619212471925100695, 238940378225642782],
    [11478440985501027067, 10213326407184972710, 13271429524057039386, 1075161070895405874],
    [2238894516957904780, 4833625379276335217, 4920785146598145760, 1563545887557241315],
    [5659103016461054350, 1503614957641920354, 9211162591969449224, 3010713028845803743],
    [9191229457691023590, 6904316270222419738, 14736261170349264361, 2124052127320567008],
    [16617295663865886189, 16010108186372966318, 9997324141512189298, 924984783358133765],
    [14145098093287340764, 5273774165531112783, 16690741166719775025, 1370217201128531301],
    [5055318936189994667, 1710400881910264295, 18376656711654696326, 373616540167840501],
    [15619230808233317011, 14345273991165092532, 3964007743039495077, 539934726603683002],
    [12733911472767581541, 9640411286794959788, 14582730980008302671, 637401598874601647],
    [295497782261096841, 13030512734447299012, 14404119310692370108, 2081703363406592052],
    [710399697088981902, 7511510496647867987, 3311821110343761602, 959224479019177254],
    [8993764219799049395, 8703012560928421989, 7084477729190072204, 3145410695728398196],
    [1989528754838734410, 10581893307035561183, 8977151818171324065, 681866729935747558],
    [3918954681489211486, 15195221776240533769, 18373619677991435827, 73502108106915269],
    [3447730589690356205, 13509460277153981414, 13872880870024678765, 1463399089852304635],
    [7195318706420673450, 2329054568303497801, 6255661604250750598, 2288032652511720667],
    [5857979121837553182, 3322032664309937891, 5371641749221206960, 537849036890178752],
    [8959477559706736854, 2935865024048975005, 7372719091240153381, 2458242287500847911],
    [493336464135348732, 13533895112493783764, 2026482886908688935, 1603714460136518583],
    [2754300886544589771, 239322653739525957, 12391401820000193389, 2179306189460293044],
    [6050086729862414417, 11581618846640658588, 17654652126264435410, 2302415879562246536],
    [9744226441088219774, 4137914573695663167, 15144409872397441645, 743333092223915433],
    [13414237608818983149, 15196396505421348575, 7193424966766418320, 3293549826838258619],
    [16861790957086096274, 17184949221210913949, 11925991585151714802, 1333726639552598760],
    [18304459301582729371, 6704679720417942734, 3890961212255331327, 783107092802510035],
    [16961310247698196451, 3624450261099232804, 15022031771908084414, 2825809613293136994],
    [9045173591282560529, 8128850862208369587, 11198975271456581929, 3386555162329379180],
    [5991867980168488590, 1129897345018248068, 7239618941352345369, 1884794194713767380],
    [17702646179655447609, 9168640020650411253, 352717337703612420, 1013613278789745906],
    [10836262755766869852, 520426394092608367, 13260575661328069285, 2379437523194357782],
    [5603758152142111569, 9507164758092529082, 18086361418359923129, 2443369886199073474],
    [8916245993276089962, 5771712030772269294, 3093275600470723563, 1897853675094434455],
    [15372706316055516535, 9253507943703447236, 1584715392486638670, 292826995472984817],
    [15382867954668846664, 2789146567383803853, 5284666365213879855, 1943665504442966337],
    [9092924754044411953, 13937756814168275132, 14879346373970267856, 3030409347544013239],
    [1490917145057189585, 17893797416463613064, 14339749167559218702, 3277662223765158888],
    [11410530931893478075, 2818661710169015488, 4086980698132402201, 2674313759272703890],
    [14961515108594628588, 7447735444850388498, 17711385800138203792, 2754951453826601555],
    [9105746391239672463, 11376027957850437739, 3510921537901756780, 560025467130338217],
    [3584612752392397136, 1710652578312865723, 7734060798894033913, 44833617984775646],
    [10266685512064556526, 10853436719336673868, 14863036873667790898, 2023805374020133680],
    [15999465966980006780, 10578230332849284799, 11291156629743740560, 890420346543343211],
    [14376907503213939952, 17353790999036438532, 8261831819014866120, 2570637842938838619],
    [1057585805261635039, 424772791269563076, 8658523468574918001, 1047905645012196800],
    [3927232172352987906, 7641420707130601971, 552580914562268579, 3371517759244177773],
    [17011733112357228324, 10050711601950582641, 10367404518498909864, 3203975473788925157],
    [12357314843863035972, 10607611838974333018, 8345533738017268763, 888246866716726909],
    [8416502485783761698, 12943740285714264305, 16540808132269319058, 879999170942327911],
    [9990370399408135121, 17909891746487394205, 10336887055289386277, 373067276349684446],
    [4446201068625366940, 8500605793579313046, 15578531451014610002, 1001692562349908056],
    [11095744279190707018, 9824193017078858931, 9793231525953761123, 1196515295070268177],
    [15859384584325320787, 4473198283281952478, 14576391412078392794, 798234389891888212],
    [9651621379269461403, 5008740518828942507, 4275392234260249403, 908205859973978184],
    [16892372292170112202, 4694051193331155556, 2380311725978243070, 41558112083556458],
    [3464936191354365306, 14841882811646305147, 3986979949486007135, 125722442310797865],
    [14788192551270602134, 13590363268440965015, 10755435671699253065, 1290437152061000658],
    [1167423362555981869, 10516175123392045071, 10948847871464978020, 1407165933071317337],
    [11664588813334963921, 3522969255416647016, 2597247760722634721, 2614059391102035876],
    [7475579766141514969, 11411500017018041998, 13331662408060843035, 177356974242885093],
    [2038436868129651658, 9837682143454818079, 13863476876729744147, 1007044249373127368],
    [16331550907935291585, 2065855331526874494, 14674122595091419086, 2956925521381385158],
    [4695072086524545369, 12979328471990197814, 18362441107136208673, 826684227446077798],
    [5686429333341301562, 900780115538593076, 1274545050588549079, 3354906417595741732],
    [4084058084842628914, 12405301114976752151, 188226501771361106, 280151338500240403],
    [7123340617369742124, 15471320881529220162, 14916402477156040653, 1414682652974602190],
    [5256585144138026293, 5911694226779624731, 822883714979256596, 76167953287537465],
    [2644612577190251597, 15587088070334727138, 15696538955726426180, 854538892104750716],
    [4727203031340031882, 1717427066952937143, 15491122807060441297, 2558572206217181141],
    [6363901969215847622, 10511897925952117839, 17361903027435937862, 830188286035553207],
    [3241493083687717744, 1202858485936659210, 1426137654326506236, 1651718895648126325],
    [729964766156058161, 4703681369505350372, 4784389750430267199, 1820535121174936721],
    [14749040500916022706, 2233693817752225154, 18141285791729631904, 3018861502717678190],
    [7418513299756082430, 5666011966024422600, 7091260623793827700, 1141430684265211197],
    [10388334348260402032, 8098313079363579854, 14149182802667579999, 1859599174076040862],
    [1946078216462438911, 7264888749681307692, 8123540341409418986, 622852762776009249],
    [8169532969545382160, 17414199386860185803, 5613714917591481498, 1807363897454618110],
    [12358021915382314647, 12780907600887640948, 17420136934099580376, 2577275463597834462],
    [9900060744488890662, 16982843251173003358, 10370301563492395692, 2326836271522053683],
    [1893061211914428176, 18072116944075777477, 13986809975404832357, 1337284643884682499],
    [14631761477864705663, 8192471424916480536, 4812468447928809176, 3484639122509823927],
    [11473568977536075424, 18368392401144720081, 5114841437605930626, 842537521407589194],
    [6106626281882705418, 17462399582463200439, 11272489528389944482, 3429523615934664931],
    [6328286038069777207, 16950716842753515403, 17120482672174070097, 3330630687111289428],
    [998481632818463693, 16657560972290014063, 14851723284087032749, 2006081430627879949],
    [8561715055431103585, 1761473778331959294, 8207447686972500143, 2056811868301026838],
    [7335429621247537089, 5518714130393998394, 4473822554394284218, 3139509937517471684],
    [13911881432830513027, 8895611592855477525, 4979931574275914352, 855570260707629273],
    [1631660636368524409, 12675480407513830102, 7854025195433631513, 779583574763791450],
    [14379231436790540808, 13083611414433600586, 7518619134866721877, 2697648291052840170],
    [5047428987603348225, 2407241211402656877, 6350213175231099617, 2350169488029491986],
    [15450079407266905938, 18196464356094514915, 18401710568979884626, 698003562634071866],
    [9936809153481853236, 3741818556145154860, 5807937147190479230, 3024214560852568258],
    [58247220868292050, 2882340154852995576, 7003712575240280794, 274147801074589544],
    [7164646760701954913, 2481540418996876133, 2654976616294777961, 2876434833653689032],
    [3429682940921338244, 2454491366160585531, 11141409374971089031, 1596753702285261844],
    [9895851623947807635, 13324397416752893002, 7657524359342725084, 3104822903782001901],
    [12648999725350815231, 8612370150301858429, 2551969291796682528, 395719116416918279],
    [18264894748974948609, 13717541691678417155, 9656779791781876499, 1130536981392974839],
    [3218858440142816957, 3706035058823992475, 3977254141862435982, 1790593089774353268],
    [3637969665927410783, 13619460042011194094, 8956673649539206273, 2224703376518628036],
    [17758448385337037402, 6846482690305511514, 2957223194073865345, 2670911492955275862],
    [40620084322829348, 3896613975661829010, 3912799348806280813, 1474995852564596239],
    [17742720395648526423, 3682816634591067750, 8615357858108950550, 1156862461159784646],
    [14112015062177433027, 13684634656263942156, 304518522047793012, 1939524995523193047],
    [1045080847678884681, 4203296100676067283, 8584196658501396854, 798475099759059673],
    [2822004408926877005, 8357302553596468071, 12821638748265156267, 748789027119931794],
    [11136472256962194178, 14727717381766128111, 10924346905131983147, 880067989756724646],
    [1031510482331983161, 13745483285073634045, 15250247067033050206, 2723403624445407360],
    [12859946858227285913, 17249967305177498735, 9717635688614287263, 2166342429903959380],
    [10738401122344007764, 4262126527975068642, 4006374912142490415, 2757345248505775997],
    [15332982856087154624, 13818250224035058247, 7501663988493273132, 3461807131375704988],
    [6676482475481909707, 12683506633102619028, 6744794679705151123, 947870547430984737],
    [1556647386628401894, 13937058204265411981, 3744834650978737676, 2039725324341311843],
    [4367744250538514745, 16076997026875854127, 17176016136493190826, 987288944592916208],
    [4109211929555811362, 15960728018120270766, 15985227554268437917, 1119780287183253262],
    [2983200925692563649, 6475391416757020948, 10728615445266585072, 709975606051403340],
    [4346551402353395070, 15835431012377065650, 1898799700977895341, 971886650513667504],
    [803364372961681257, 4212092789544440099, 1561738334775324185, 3214523108093536940],
    [2987456190108703882, 138615325332578629, 12085776886611129745, 1923377837014762389],
    [10411978753241493404, 7505331032234933637, 4184609077229068249, 3481877624823057295],
    [5001680670916712813, 9419116803359978241, 13256612050912700637, 1986105174156352066],
    [831284877175914646, 15343960081148993991, 7844081036922224688, 3358212200170793346],
    [4754473257905614391, 10873660570880684607, 1753192060891707033, 2847616193078121862],
    [2149874151935323048, 10291202045587664093, 5594221728394338854, 167483394469525219],
    [14002885039140493993, 11127561578092686636, 13079169492307898735, 2103188614206873111],
    [7238297838254747836, 13328877017315303461, 3451560702457449397, 1623379656181847995],
    [6740469521663794135, 13229271872770247073, 5768920258009210368, 746894615221104128],
    [13138424471523918466, 12314773210520375436, 9664612113097863363, 2727973295430477783],
    [14552473738158977062, 2098380018731277647, 3042893614880605, 2729666751300466431],
    [12476468716219203839, 1144984917837541273, 9779766730502058414, 2858033626750577746],
    [941582875344232197, 1243863040959947449, 13489846193761424334, 2741959926809839700],
    [7296404168058284281, 3563205424054089886, 12481612824668700342, 2564698235587930533],
    [9934258752895000366, 2388849875712671674, 148487905630725127, 1292001347700579535],
    [3166221957887660565, 3380381986270123085, 13089568535929649701, 385867083089137349],
    [127522433131933003, 14691180254156530092, 6348659826816898439, 1657464801799842693],
    [10703673103181212698, 7675819251694712847, 227853911984764112, 2398951185870168334],
    [8486044135643889730, 15732142391893137091, 11853672424067292444, 2026979278486102303],
    [12187402170195773291, 15958935612787984061, 10373536026137118760, 909919549155457770],
    [12545542486079874792, 12616848019633838277, 11986107570470840032, 85430741863196784],
    [3061207265790185324, 8714815281743972906, 16799876744012588026, 2692978073505829749],
    [9138881019438332818, 14456077572999218331, 18421880743254043135, 937686250271235613],
    [1374079313462684576, 10556698798853020185, 18086290967179723918, 261008042554256361],
    [15783188146307422100, 11612902722849248287, 11569814288866012613, 1948667266151371325],
    [4250956778183767728, 9001450453473623020, 9779883061682787539, 2457672137752913779],
    [7521169044863783255, 12471735073754849508, 11249373576113068729, 1320198705002497221],
    [4288895896169604912, 9258895147444697939, 14172324287319597271, 172519116961949575],
    [17848202971068462381, 16648707694134454412, 12412110280765416263, 1913460395601491405],
    [2002419098208574885, 17850865365404754540, 16843892427114425148, 206517373009597393],
    [18109647841381664206, 12263925055731037999, 15588765618255837962, 2222840260673462825],
    [7511759069440509370, 3425094598891296781, 15432463499466164960, 2705985065230050234],
    [12607114987517440523, 4499366729060030701, 8103064770445426447, 2884924657026088867],
    [18299977367713367929, 804976319049397021, 15624692759935487953, 122274645220041282],
    [13723368611086327146, 12338243601918589241, 1756835360054230004, 2075529152542886248],
    [12776573524706271083, 7506796714124185231, 9835670186701202503, 1213639824430447286],
    [895571935714498391, 14713959865765307904, 9055834128544256564, 1486529420960365936],
    [7177353346888652888, 14062662029205531998, 12762182650124825721, 2995210996789720521],
    [13049211148655872094, 3395429475271408785, 959772691113298441, 604651607783592016],
    [9527304553119468824, 3404128702109059313, 4815775924668765741, 133437924077572125],
    [17984627422001722899, 9213552299064897003, 7416816011726830400, 929085217225773451],
    [16479774898865832248, 10925066592561838910, 15929531055157692440, 2486598190824343408],
    [14910883230813234255, 2084402467109990252, 9288716765209752504, 164535519685823993],
    [5738330122832535229, 426279292629015985, 3357609239571739944, 2500550316753357838],
    [7123001385349098191, 6866585053369478834, 14811853408942500069, 1152535702996212755],
    [18741012007907870, 9321542199344364857, 18338848702459434724, 1489807496577360654],
    [6962798847739545249, 14780315738288726820, 8047551139969625104, 1584174689941033547],
    [8591096532711910481, 4367523251765967821, 15051278693657271, 380503114911070063],
    [3112291182316191897, 5643764758565513698, 13388557166736755610, 1396009558659921221],
    [7793744058869112451, 15897686354058829994, 14223758245807661293, 634527009564648856],
    [624676180422910439, 14905666931569150811, 17121404333079180096, 2438319701104104086],
    [11946617806443703988, 6668953314990193745, 2249075956535610116, 3079444181020528676],
    [15416716444741978157, 12832487243294925408, 4825787690771351070, 2685749072882421438],
    [13513151802563145186, 16274435601027711016, 3097670433197886498, 2905989502807590354],
    [17623095409950391196, 11704118026624763401, 14085532183224091959, 674788863454509799],
    [7910064045346846930, 17926386779565035927, 6027212904108178241, 3080528408087290103],
    [1915568292367003838, 1795602267132099961, 14767253075798704902, 929315405676474119],
    [9684311283931002934, 17838158819839777472, 3927317663590179306, 198503905803638075],
    [983615334134714818, 6830488352336639619, 17550452643711004907, 2424699681920733604],
    [15098171190564576458, 14932986483803313244, 1241512485156942402, 376903545579398322],
    [14406415230585584185, 5907714260483524437, 4548856295569939117, 1768163153056886267],
    [5899820981145231201, 17419677982346080381, 14888366527416563487, 1623102802796738088],
    [14386027836976429108, 6083600299729158001, 2451104858045200402, 771377913518036423],
    [18391806078558788453, 5356053192204714441, 14277014987231411503, 393994363419145486],
    [14021926964662463691, 1906325269442134374, 8182568302624136996, 544947251496064414],
    [4403369613235799545, 569243680759622761, 16008481286604534025, 2753352580053464055],
    [8279301811525337862, 1670744864406911816, 6548172776802951850, 3346480126546900477],
    [8814401456420312872, 8636961214152411842, 3808896233206797929, 2946252143299112179],
    [8247892988126095406, 2154219044483118318, 16226660330507068103, 2875585479269967891],
    [17321879549428024203, 7540607276015557352, 1123135594901456229, 586073253513090195],
    [3325309940118818778, 2688595768687377848, 598342632247312479, 1151651309911200931],
    [10836482720349409913, 2517693215840394348, 1346634552080502748, 967730596675516666],
    [2615693514159592972, 11469560878141171581, 15643802615318259625, 3196832111169538824],
    [836019006682677497, 1628692452063714324, 14506750813183929889, 1177741864511707588],
    [17859214008022659263, 5489431050023476629, 3806976549625688448, 2042661322761915349],
    [1807854151648008396, 10274176299479764010, 4450803121540559879, 2814825396469373540],
    [11250051641492493109, 1493041573083799987, 11619524489857733419, 1759885063129903286],
    [14417928920027588013, 7216269289721317465, 11660928750830566954, 2230733249342940129],
    [10851570445530589363, 14414598903916056420, 3864131522461549488, 1052423058408748617],
    [10661763440707642167, 14917760909776264557, 4632051182714288071, 867607703056851061],
    [10187037840371594438, 17894432481817746890, 11109148267542975233, 177099041420873750],
    [11493789284614159718, 18288431928461514460, 14782360679038134149, 2254136611248749329],
    [18237553354976309012, 11054203759824398376, 237120121505248954, 1775594875248831475],
    [5477074991148314536, 17229610148470885014, 576485484020655153, 1710329712752455028],
    [8444649662261273532, 10665287756283741255, 6657295833257382104, 3441796524242939393],
    [13277077422326320664, 11063923639341527361, 1262924174904462389, 2523435494486216617],
    [10885737193795055227, 9438566573724881545, 5154815150242414440, 656315201051520582],
    [5876460389486238425, 4157715700629913102, 7002322480546283992, 3379880519882463049],
    [5517904698192732184, 12060642360948631761, 9526358639666504137, 1031385558884933323],
    [10433395101845109118, 9275401043386041472, 15832014022008113200, 1537654301891736838],
    [4670138819043604459, 3776378592625037878, 7347968965924866743, 2421051830751528865],
    [5448268295564694606, 14819788257566076026, 15689903890592466484, 3290233943533750605],
    [539719617136113585, 5178476875733671421, 9263148657657951208, 855869947929746185],
    [14912538168728970798, 5695850534077171065, 15938629438369797089, 2104074366418208789],
    [5488660951243401612, 8883602884840285680, 16161135586254436608, 1560732076069897137],
    [11754934026781882690, 249381288034141974, 3259759951790026690, 1580968142362664306],
    [16927088389792395754, 12399177059528868662, 6843945691173935404, 3241256354949345281],
    [9442517847832763850, 17068035553225950621, 3995850160045453965, 951133848547644199],
    [5808406589513809246, 1267778960219432252, 10376343688338767808, 1768305336048882871],
    [41106783330364063, 6999670534686109741, 4582278513742642064, 634701240705609086],
    [11966418729853703512, 16685501430767402827, 11951207247955195169, 2357102532861681356],
    [4066826381940608258, 15223618113467508858, 8416902482681532842, 1977289841349757610],
    [1399094424341477270, 8847000971657956718, 6120298440750571547, 2648737519020269938],
    [5637559744847114311, 5733027938309201737, 12756178366409031367, 3035889426686799601],
    [5684893381111013173, 9210111068456500190, 1962564192225540203, 706449230362151824],
    [8187166095473464675, 14090389067292174862, 10967960618281269054, 248282908611764107],
    [12538624386165202309, 2440066018433256642, 3370760600618890997, 3163133726545440691],
    [5809009794875953920, 4888061480523770680, 1224135262075225422, 2277581508675040986],
    [18322706793607842467, 4298995987898229514, 8350132220981850707, 677972589767668283],
    [15580580781953899797, 3170047097274508925, 10302503233042565217, 1901160633200837565],
    [5110271151225902470, 7627351052015447252, 17199574132129822425, 2714584311254132290],
    [9126716049474021365, 1719173895769824900, 4052100936662329388, 2816187717078708051],
    [380732278933806921, 912789689344045166, 2823632923712594112, 138734997482666129],
    [6479010632652246083, 5274945078380816998, 10650763581225766168, 2875643878432374653],
    [5663581626076546151, 1551561710981849131, 16071380350683068131, 1992940807371721285],
    [5998961887963665199, 8977261965052024504, 15206430652059016423, 3391767507995297083],
    [14871909337950991085, 617780501481230015, 1785928157288704989, 1863590791121966618],
    [8466495129758543213, 3387133255315356929, 4281408056926586839, 1391872481103168197],
    [15393381585154019954, 3852924380676384514, 15881416805323369244, 2523570154848302756],
    [16336017137804185987, 13691386536725379487, 2196553387806372047, 372234945087500497],
    [8170922553838392119, 14451493275295157635, 8901937098279476797, 541872162838071033],
    [17975660446543646351, 1195110226373336629, 12220178688707246592, 475575236841895355],
    [2911796902109148331, 18039198693771874894, 8298298636405926663, 750166277833476028],
    [14801404175441219860, 14664125411369999419, 16919445965746144310, 2377231812775027517],
    [12844747732268936000, 11412728573996474124, 8694517771095877167, 3364649526577968597],
    [140440841802833381, 16289710303988954804, 6803170609247681876, 369107960568532151],
    [11474198446707950521, 9158988040362614165, 14991034192058581937, 1054185830593132694],
    [8147540453911907375, 17427683307167709684, 9863065950468824352, 1288870486335186148],
    [14631652469721652875, 10273443808416503755, 5557163391508236127, 2477886295068304503],
    [14472394763201290559, 5948783088340095252, 10104870246625997863, 2225448074301799146],
    [1947772451339029283, 10553243527293389654, 408688669040476946, 1963272927444310749],
    [13534703870755257397, 4593388108695762929, 550297182005213572, 2639255525518237998],
    [11904636174123286448, 17666655234785881059, 7389999525641966091, 332191112298461718],
    [15937195178211369116, 7131466522957614945, 4192212238684200818, 534189707480614917],
    [6961985433329500793, 4345496107112689605, 3485700638187814120, 1919107549073925121],
    [4394500548380209838, 1323546631448110612, 11137216831690730418, 2315216703470563478],
    [10716537087068820293, 14344775248464977045, 14352595213394887429, 198822073587531503],
    [13338122334996198306, 13072806022818385180, 12829049456370513464, 1283646139333167241],
    [16102872441913088019, 5766879726435331655, 2236238690873592047, 76997039223585786],
    [12870959536606003387, 13115643638571426935, 935680305717082000, 1210290351045360656],
    [13939555766450110076, 15278055466025848391, 3342993765072960313, 3278039597390016976],
    [6679358378493913397, 761969551933645661, 15030282608406973623, 242061995628971818],
    [4596994410146758641, 2748920686729267503, 16713832465645959328, 727088525793222214],
    [1588833375982810237, 12228962526796277848, 4814803028262129168, 3195520023651186322],
    [11090396899942024663, 299816250077304357, 5529550255612689933, 1185919180374733953],
    [7154101364251603907, 12613220425676718039, 11468352769939070384, 417349934941106364],
    [236529494919004806, 7799145633901157476, 3488235307685316171, 2615372931680922165],
    [7284789952810536692, 7159314387580568575, 5839190869619436111, 1773695468561506497],
    [15720348557874724369, 6380640213852178217, 16146448692340482717, 2897134447590760898],
    [4878125963595744523, 16120539967889677372, 2345230349710601849, 3361468127691343389],
    [5799424954183138148, 9294216427920690189, 3682192160498253539, 3065538418581480076],
    [14174319682712554661, 8141808084949963764, 14333852852398313569, 2810468914219589922],
    [14165589179169026045, 6704186685921846821, 1626733937324950182, 616184708930544477],
    [15428498664670323996, 14676766976579074249, 3612400494088891126, 2178382575394282286],
    [15472697837469810299, 10610654547072825876, 13530760229693887749, 225202032472372450],
    [332788744852981308, 13892155035784964571, 17796701312428129111, 2737289922317403292],
    [10993152401806026142, 6296145733776751788, 5970150504471714965, 3245033181121803330],
    [9502269023889952289, 1726984497989302327, 6396754684803056289, 536556723142597149],
    [8459440139990807004, 16071827191132137148, 4276145751724076159, 646617366539032706],
    [15889636206177151438, 8699268983524307412, 13243944687161367092, 2667750050657212619],
    [15345063966572528096, 13603697030421064503, 12017117278411402255, 2482341527986040415],
    [10069442107899722663, 5035938101628754139, 1693029776675431052, 2911254518564845460],
    [16568014504207743307, 11678865939636784320, 11205384908790925824, 3223400211319827815],
    [2262776162872438268, 13499805535465510995, 12117376287537764417, 1525990035131877888],
    [11125144313137691483, 11693507403319271413, 5777957653899548391, 454509103022320274],
    [10891467892486476298, 6548744054193952341, 10542582067748081210, 1711214136119972005],
    [13135158212324553322, 10528123524183875295, 7640236318776592823, 205139648088636084],
    [2123330663103779006, 4991763824907526524, 1616807484377665044, 438793083257641711],
    [3349995352252085193, 3740947569234853420, 1369622920913135744, 1788783542171585096],
    [4994606817831568981, 292113945453372384, 3239149539506873899, 527563347599916995],
    [13539267108404466489, 15537771938491521861, 17820694487388417551, 2215883033382577166],
    [11777215295753556317, 4825834737691452697, 2414182891031805192, 2626009128055818604],
    [12960451077093899376, 12720624842219385911, 12359696909265380306, 1563144443466608260],
    [94295464747203138, 12436880219920226104, 18256126466913300431, 2417992134779045514],
    [6330732942743554056, 9098866459521355210, 4605337287749142693, 1197881215178200352],
    [11381036414381175198, 1363510166911865276, 1615574777827423567, 1322488209761375941],
    [8367769339844488730, 5077723769472503629, 15914648938761879507, 1958615183517912277],
    [16129688307642430154, 7428724584373673832, 14270246094013446353, 1073723159325728524],
    [13593304462656394659, 15776692762290125747, 6184747963246750945, 3197178297233241294],
    [16460357096947002753, 212345957512225014, 10546878178940828262, 321618960483041871],
    [6163665761917625593, 10056848183164056668, 2865225461574581204, 1498104598654655709],
    [1212591695976262853, 10134085213452590813, 131831649987053761, 1659679855916832203],
    [2548150704970433195, 13441181036121422519, 9525562111310646215, 3123253136320986951],
    [15961069675013992009, 8242595792541227186, 5431955046218548668, 428289752366173169],
    [2373380952904451465, 13975841116181288520, 10329858372581379182, 3095322746112140758],
    [6844818569250950818, 8725252291035758858, 16041837928011565021, 3480993777676504140],
    [16403471674818874959, 14917576634688129005, 12314668785530355323, 894932117976766814],
    [14982365239680413302, 3369396448401595103, 17641310362867153669, 1522306105925883862],
    [6099185110987135574, 13853291686183507013, 8547022697214323387, 1831415083953126945],
    [14310903710403500554, 8242903392826968804, 11219213941053639032, 2142109704098841651],
    [7279978042239039323, 16366681187281300153, 4216281022065470248, 1247412813314241916],
    [10648129329160083506, 17334792597061039106, 258486468071501856, 1522364906869729285],
    [4290196805738901487, 18206642205046233449, 5312413798305193736, 2634472025309849523],
    [5678750190047841837, 5718237592366278566, 824313896324709006, 2387229748281192653],
    [7738875666063330130, 7939278844012054866, 5595466023779804842, 708906211399178118],
    [7532741201052772865, 8371583331586420318, 8888372113649214400, 1155693387111807101],
    [17821886229820368977, 8789613289657555730, 8023180399332278421, 2147892692176248006],
    [4671274144574164304, 13968815193941415053, 8211029753001648983, 1356751008479405424],
    [10715321539634354616, 2729151835029410103, 2917360475709210777, 178978530940680441],
    [9768310603090654395, 3113688262566626991, 10513572434745025399, 565493233026383136],
    [16124444088689460468, 8158912519032955698, 8244226482945206067, 3194186983442693882],
    [15290643175423331617, 7927685299965787138, 5695161521112383836, 689518754107636828],
    [3638611340238247294, 558326249301130278, 12743907878686390469, 1039326867694101382],
    [16180633983900447249, 14824205004127852569, 4322824218588428520, 133838599854831667],
    [11112882527059453564, 17795624012305983267, 1118722642841601240, 1504433979189009438],
    [2078530572104263509, 13545029890425076418, 11337708093959778091, 2790675195593567989],
    [13639457593526449964, 13539877810474865656, 9803502431926828572, 566897881938034133],
    [9502317040340359235, 10356513146470430653, 6532106635720885117, 3470186906561756673],
    [1182755859575355635, 760176557814546132, 17170047205345041819, 819422909823663107],
    [17479101249030977569, 9788182398982428962, 12788242250237298129, 1105250038077380289],
    [815075953327837080, 2018708754015942578, 7657781288803916053, 1632682150367953149],
    [15021553888086439028, 16340489428927686060, 5613744494653001822, 2482743285930428132],
    [268556962052217165, 8788809530844944576, 5453898855463552237, 2629846485881141530],
    [16315957556330893710, 5844067375274281534, 7177498578253136027, 1907851952132062568],
    [15010659389241701877, 2362388169938004389, 7028392957052375240, 437007993647632409],
    [7136436830586258174, 2937210554261250279, 4554412650361377430, 1238201638194441484],
    [14016762860578069420, 14614981104743485264, 4965003449615166469, 372388321284355516],
    [8876933824285122461, 13074242610373574262, 17651786880174767740, 576083143534848065],
    [17366824718848692967, 7131959446677626789, 10614279092186460214, 2682888343869525269],
    [10507804155912080008, 9822744980316833430, 10181341515685052935, 1220351435100955616],
    [14377264879917370933, 15533482528276042373, 7602858305485357254, 3307674849139380779],
    [16170745076852495349, 6336527730272670501, 16341931350330224760, 1759113447069840621],
    [10662033364462441451, 1844458532796348958, 10782668237729840197, 309125875717053184],
    [16301291660985180109, 9863538139315766609, 3338294646869792393, 1071599203457388713],
    [13119922624081949705, 135180540282516950, 530014543952426311, 2152282619119774155],
    [15614297429275703339, 16049853177186096571, 11228148416246914539, 1373623398590886463],
    [17330910882865690581, 5390996978951209568, 16140554544948761348, 2712195848660086781],
    [15618015490040273739, 11747702745268020782, 512912962456110476, 890186069675438074],
    [2329247216083562007, 5649812852025224625, 12944256154137055962, 1973597803388105439],
    [8409657770194723016, 17266019030030917310, 18440488589510941484, 2808445395000748669],
    [7722859997721887679, 8488835242851862454, 13898296365802743907, 2240686713837970284],
    [6652229690807255338, 12217819215492435488, 14196131238711936349, 972511583841722514],
    [9425325332675167498, 6505276295355664533, 6955280838295894287, 1751232438440287139],
    [2638136478058681715, 3724601823349388092, 12178682868408930760, 1747528688663354561],
    [4950722781268659656, 2958197858664634018, 15697491828157341795, 202793719138850966],
    [14030359673459258976, 2463667532613381187, 11772715599571589119, 3223045921184977680],
    [2664064668417888794, 12292869184484035287, 7508249796119853500, 2169686843974779005],
    [6708929031483532313, 12258315484737762863, 15804069962836319681, 2426654546634443993],
    [4831822227717146110, 5687503129295937743, 14355845280742110349, 63504393079383123],
    [12062731856535408748, 16541720585552985374, 8918881616482718735, 1119664874204047467],
    [4894600173086380925, 3570135197147044486, 271598192715057210, 1578130674577252872],
    [7448550744997634855, 16853711083446331334, 8477019803294653460, 2037254876250363110],
    [17427729615959919105, 724816710505645494, 2527742812645717832, 1218949308787004012],
    [8580526516286021617, 4198762811803595812, 13310190173713540718, 124895141967120753],
    [5754523498785751130, 8040096557050612256, 3985631800874769608, 1407728906154699471],
    [8360179302860600355, 6123671836233443671, 7428166631252333039, 3209256717697324493],
    [4193631748523586817, 15532346487579175556, 7458449589614098825, 1001605772751463141],
    [15669066402991157925, 18400606083995082370, 6182078314321355765, 1047992642236196882],
    [14955152461584255070, 11586589852071651480, 9514848343224210486, 1131547444700114542],
    [18141412957458290651, 17243032515173412359, 8825663718623451767, 79307352646613002],
    [9792825243982190485, 15583382153597599000, 10867117187701629235, 2893211927169775452],
    [4841979311743794294, 250700780850400801, 2214877223880851832, 2095172763965804400],
    [2410982591354993671, 8739599142349573241, 9093285097846064102, 2513901988666548237],
    [8530000628395341543, 14204223821780323949, 1437361685849318085, 3265873158178618205],
    [10643365652078330396, 6433333956896760551, 1216115379983688867, 3327720632445098889],
    [10620018622685266370, 3967016751823691327, 13924938890177533077, 2544425585535890227],
    [8469600124337276956, 14475366752652879901, 17674827706125876790, 843263855026847090],
    [537506717196838418, 2436752602731552889, 6869323326656470031, 1845038972175623130],
    [1845392094084601883, 4525220933350839826, 2024598565645477485, 118175529310161240],
    [4058087883523816731, 11620291652411702822, 10114179241906344787, 1614182664165438373],
    [13263530996135112333, 6451713149794273063, 13838287829911492969, 1568100723824832117],
    [15630354307555755913, 7880579119937429022, 16436087029859111392, 606515435267299996],
    [15249600155966682925, 4731950263540490676, 16165507801721103713, 1099906406243269249],
    [4150896742291817972, 12919149382222802224, 506247689156818431, 2140233158127597741],
    [4378436158982971353, 1740265993120808250, 10278486969262096751, 1951528808780806126],
    [4990660471678013235, 2778146343492230643, 6802680230323551981, 172168857789152293],
    [17563306002107040275, 10443933902782426299, 15501300766469493721, 3289966129626679253],
    [9876610992748084894, 13487505419539391038, 15171843838185208697, 1418244575110287860],
    [11556295603887783786, 956424523087423950, 3103829599725667146, 2716094742605594668],
    [12578681681615742138, 15304430566522937882, 5184445984976798980, 3248255897927858934],
    [2063797616099939589, 821311828171003011, 3513172735608452122, 418752755350949713],
    [11055432039445765534, 920399209854415072, 9319082722386748056, 1133279272308945808],
    [14067917381698914229, 1555759613761147850, 6366621492057493522, 3361299555365572328],
    [12028610640880138459, 8572921091261799229, 8279633787592632170, 987131114097021812],
    [18364021710545804067, 12700926297674194957, 4445522489079470845, 1281279196840361415],
    [13948348604371104321, 9664690546215888095, 14116545086254676667, 1451249356532284995],
    [5986425064227819232, 5046257252702309794, 2006513439119930560, 3316832921942925198],
    [1646932399788893130, 12865485823343229133, 730588559891987273, 1987315362923554785],
    [5993020935559075677, 15333538237021025133, 12193279400777995053, 786302624912653182],
    [1971117816050109442, 8952933141753686255, 11039873225619803280, 1797752293472453603],
    [3526028101538564605, 6102794036679198066, 1820526836810338199, 1718034071014843358],
    [5713444988135643190, 8042639146000909234, 9709461566068932463, 1150493301749208532],
    [3953659000499100238, 1023637545357897076, 12894804542771680016, 3423327201574078684],
    [6697873284611449062, 10458475264773037771, 15695398887581407643, 1651729139336444381],
    [7704235691908445566, 2668256498670105098, 5630133371728531583, 1145428528525731327],
    [9069461291282529421, 16171065610523533403, 847667545284699114, 577051703261822186],
    [4021604568696634999, 1958103691903972038, 9322099997795291242, 642057640327319616],
    [1922001158259994662, 3903593482336447216, 17184128212007808753, 2854487114645975549],
    [3261792672808825189, 17426920168348678233, 18156295543646839481, 1260445253552450401],
    [4167414559769444639, 3401046897677224428, 5895485485825432994, 197155989181770074],
    [4962328447236947984, 3659829423790536903, 3613522368427459172, 545050227538049448],
    [2025881453948766109, 4555173541130499145, 13292103275636553832, 634631446386174428],
    [15179107800961594867, 6846091549644623266, 1096082037078487501, 1885026187575438369],
    [7189491531383206205, 7040920689976897480, 8233413270603668181, 1536089326627075448],
    [11802163633466000630, 17632815099544505110, 4093744246270649573, 2811907758641457547],
    [10224587172791920424, 8923193743992961031, 16389408405761406742, 1868352041460736275],
    [2639269213430756393, 16012360529847600978, 4704168620977622938, 664476393516575614],
    [13411151768906660872, 4918320232317433398, 10068388806110165750, 303384265801698226],
    [9896653345211724492, 12774308007834155475, 2207678172425888295, 3235586615402717841],
    [17283055296646684148, 5751800654938656934, 5417500049845733371, 1713441130686436340],
    [546156562389866618, 13511900216623476599, 4515518295209285032, 3432181111594051993],
    [8362907874498500995, 9293897762993112616, 5049902827051183853, 763278735137545067],
    [1251126656906465498, 18271227231741095833, 16410738287538593104, 3436285151747472295],
    [9851756352633463903, 2577821590800513143, 14398097895557439496, 74736628739652786],
    [15791024380860522100, 315137852606775822, 11183870457953871943, 2736763285505829036],
    [10937094091516477303, 17916256171537247344, 7207640411304715629, 1602888415564621368],
    [5009843646237762877, 10340775615082677100, 16111953368266626, 3315181076470603485],
    [14073736415995034209, 10701787777640844470, 4215090466556266789, 2226689172883554004],
    [9113654204258467652, 2722053693066226522, 7979082703766689043, 2733679800605655184],
    [11394463173684729028, 1845811862645066756, 10672106834552547017, 648946092553862111],
    [2777937193597586621, 12539937668905040200, 9004595021587779002, 1831031709412495151],
    [15291878647037166967, 17064939541934254894, 13144795644343539514, 3328345437904718046],
    [13935076801820967885, 3267349751462121350, 17644633629566634837, 1800478807862336850],
    [1883330850684518539, 12581324999893964678, 5855158620375647837, 851798714881862253],
    [16584337409061529795, 2680783761597335298, 3450818359874069891, 350747112584513458],
    [3313650394072005001, 16636621491245176308, 1737633548404867318, 2854474458565555860],
    [12675054653152000651, 5385427249530844425, 4423749844560719937, 2707975377256236743],
    [13465159423301069088, 5014922797460295391, 13445643486214835135, 671391365643263933],
    [5169634094651748961, 10445001714937377830, 15850625568258240326, 357973576195689558],
    [2291954824809079939, 9962600691544286573, 11947961235737057679, 1516632648293442176],
    [12369112861184112515, 468860632497063358, 5207897558325026311, 291334550511007065],
    [1437081234414202014, 681638534213987207, 7020451769208221427, 2907166652351300586],
    [2332457603997252356, 1611421586444342977, 4822387328788685305, 770128450743870750],
    [11099862776852594560, 13497315934869779333, 6861417367015320334, 78019253777276126],
    [15110388546672413973, 78562101277756739, 10922428493335253637, 3311457687921264677],
    [15558222952316508791, 12879291224631754039, 4239186260805189060, 2094247762029447388],
    [17128927458015764262, 12679502300166874623, 328925462682313825, 611973608537925242],
    [4589172493618031672, 7504958248748485529, 8055249628145606789, 1096460978981450766],
    [17404866787961272175, 3349611406443212812, 9227565658831947045, 3023838714197180937],
    [4284824562504189534, 6789507819798408728, 5765952021629184152, 4624534800299973],
    [11188633837412511294, 7569513831719612117, 12359545495340448648, 3469098158930094241],
    [4934395590191254015, 2052785814517875676, 1207687192290801623, 3393351148190987105],
    [18331307179114731453, 7497716092326825037, 17630752159025542022, 393854941496418758],
    [17422316997315469958, 1773231001108469809, 12935794528986598337, 1549103529231095667],
    [15237442058232743068, 8390742042918665008, 4469277153879907595, 2439519290094294779],
    [3508209240039162824, 6496955536405026114, 13392840249376353453, 3276064866410958987],
    [2163732891089371542, 13301188545890887003, 443712552314419261, 2324396446865019633],
    [14537557120009750131, 16417494963574852729, 6503984602904525096, 2718267496209346055],
    [12059103816035656801, 17252826312244268279, 12898114502047806087, 3218086509537668394],
    [9114164627074129915, 15528667374790251835, 6518112679807146086, 639935914735668712],
    [16743607415454660222, 1509847420472042198, 12369725484987722748, 1041509788464449709],
    [755188610365381247, 7023882667659963843, 12476056076665656786, 2915021573574830146],
    [3364162099222407272, 8095780957662185580, 424755413324645027, 3132434373771464576],
    [11917251129002471291, 15274268575886403049, 10441753558394582252, 1628415759072491119],
    [12778952359693337359, 1983172930805580543, 5912904259454589617, 1013053512868958856],
    [7856504877952003844, 11457577069821380709, 5388370115279354282, 1946092601920142781],
    [16534333049651671853, 1687236428978228363, 4511892243035877201, 945515290679964929],
    [11046816512323375632, 5944376710353954480, 18438035054436073780, 779492348702251484],
    [13995276823438226524, 3117005693948962411, 356049937271357922, 3382054900305019630],
    [3764892526855990701, 16658220916947834685, 4541233079943454359, 2730353599180610038],
    [13601799202151562382, 5976141680051303011, 439514797669327520, 488126011280763441],
    [2365549711535721725, 4576429316430810561, 6787056120585782274, 1704217414371600660],
    [17323127739256885772, 8324221542640576975, 659814150431224802, 1016895153486815764],
    [12237020989464891565, 13558744237668347948, 3952871844325677500, 2453211379405197713],
    [17384545868453205573, 14027960029038842140, 8947893244877897105, 2265756686781815449],
    [5315261050362685193, 9194494529541613570, 16894294337446437739, 668470266336191788],
    [15968049466409302877, 1605288667557046231, 15885979352376918704, 2627947645291503330],
    [16422738686020486586, 14137537897537717052, 2977757427825030806, 2654548771152876528],
    [8751480325754852626, 15766236904910244508, 10645906647791291834, 1827966810341548928],
    [5758606301597802654, 13839962722824423676, 3103828017877405544, 2017449096349213035],
    [12135945300886538122, 3354153681290461798, 17249499398796882243, 522309114528353665],
    [2722161162816264169, 3690068888499188675, 14862845875970025277, 3162650972887761292],
    [7400089970113203637, 4326275152780648135, 12447986788491031569, 2886655093025984034],
    [13652946921509483089, 4706983449933360503, 3145271497026946160, 478710503433250332],
    [4686689051038702942, 11602241565686251559, 10868041740028706528, 437272706798426495],
    [1076157195844000775, 1302391278659734005, 3766233143797585295, 1912255990254413229],
    [10707379752783705280, 257300790783538685, 18209101313803361336, 3329501126353549914],
    [5948337584996916086, 4663798587346272163, 10096521425713149240, 3023267082336328360],
    [8242059970764103076, 4695093388027034722, 7300026260017186579, 1238548139863551876],
    [7460600874273063457, 2022893167883692366, 18244145965977887962, 996953711324441879],
    [382363277276072807, 14959515988730867584, 11800155096178835202, 669156427176005731],
    [2819081537078594946, 479134231128551931, 10015534059051567980, 1533598764390098258],
    [1049777425318037557, 16391998263631110651, 7726798863172145820, 3281626718207107291],
    [3891498684159182304, 8817038623104368784, 12959222487807228803, 41917460518907472],
    [562047421451913186, 14136756188578304684, 1534345153449068633, 2295428077211894198],
    [6434929505561887177, 3520567068765484955, 3465488727105503576, 825712130778435216],
    [14020672347153942645, 15503908764689802604, 725592461925441691, 1446473881480744094],
    [16667301735116188033, 14742845959024884078, 15072120762524622375, 275649472827979681],
    [5993061446115858371, 7175655945978931472, 14489056610289493076, 3093363236087978950],
    [15477232954526196355, 10659392151769821553, 2100752831545862711, 746979744775917977],
    [2654527870998189470, 6572748065300182718, 5452874693374284612, 1553319426266852592],
    [6938725850468211038, 17036671638553779839, 3500388031891786060, 637031069115441421],
    [2261965156791087625, 9904786851159601534, 14354977614885644977, 3364590871351303394],
    [5485112725510477524, 10161339591518581467, 1461625834352188988, 3358554044933077535],
    [16291649780095536392, 8470200127946513620, 2670328859510289107, 349656696914852932],
    [16709306327040683613, 12247624332799054437, 2331916068962088661, 1604571695330197166],
    [8940745846129801880, 14384641313642205078, 2523469478281398509, 2054120350042566186],
    [1943258279092866747, 9018101891038515087, 7433093227391699768, 1001902494342333903],
    [10919546047713092132, 17853805541686619799, 131194604715497972, 1133938570469988085],
    [16775089761653070885, 18435804408714141535, 8479251168387044675, 1951616203674547568],
    [17526891697552226256, 8937151379823679928, 13194671157967933444, 1200695824116572745],
    [13541536777380302867, 7127827870210787858, 13964738315238621197, 2189514426654199392],
    [5437426861975640040, 7718937027406302654, 11228475980970452476, 2441693208982716742],
    [4034009430575921250, 6952574787143921614, 14281560245539018486, 2252458146586801980],
    [16077548029610101046, 16371253079841049952, 12351826441679156626, 2898089726688938309],
    [13649071424307983353, 8651861441724194939, 7424368407658910733, 915583183257337566],
    [15254660778568816259, 3616636311533298488, 4398681904715361189, 2592343714034950879],
    [12667320655287210073, 17443667000565240788, 182071111852543099, 2383256193926060769],
    [7712422435483331521, 15213211114925531126, 6330161585250725950, 2806177633525540610],
    [11890841143053614535, 2618700504418481550, 2062786934299717412, 3272344946454985130],
    [14639745644880494130, 14467620989151583545, 15911066666283045375, 524207163080895779],
    [14148683900041745995, 12547292752478448428, 9833389956602689862, 1027180113198640038],
    [18423921236517510533, 6872676136969782655, 9758922928808877275, 1595656769506137829],
    [3379289585175329476, 17005015558979026689, 16597382618388342553, 2292582547458542145],
    [3028041189199091361, 3349359749627690886, 1039512706700581437, 2329138836321984900],
    [1552132134286334077, 11482351143247228881, 7626335091816516482, 1353259673226049693],
    [4948794355294438530, 9944550510608983280, 18009365339208215561, 2193572303844871783],
    [16331567196239508217, 7673153990464015135, 12234764859980225620, 1953137125848514717],
    [11077627687175412559, 15781626043524055174, 15104339529185436775, 2953076844667167161],
    [1403718119558794777, 8173947323222718239, 6449259767878769079, 2811174817132535634],
    [10462104511467145390, 12671178653901482902, 11307576349718255772, 3344730082392855225],
    [14108927307922118245, 12196149564493337824, 7553929730572084352, 2232318930182503007],
    [3085966402174105824, 12733122847243859851, 4114419487530242023, 2143609156692062415],
    [18317123081058393546, 11938002656725351043, 12265939091421819219, 2099149965463598178],
    [12099873304473674976, 3073683211435418824, 6316968875601819882, 1745711238935493164],
    [20864012405552118, 16033278172982330618, 2584035366162766783, 382908705009565651],
    [9026972666441390893, 8424797702203096210, 6898339753462179145, 3434359287247163546],
    [4402335950739038424, 2960706449938445123, 2922199283623866091, 3393502932139479239],
    [5570566962586047124, 5009928700325385422, 2678012690298222062, 3425832232658107889],
    [498450613436461894, 9241966506468511179, 10229392461217213050, 3028230567091325516],
    [10221326963522003268, 17820084097965292519, 12132075353683364036, 3302409112875307599],
    [14131844696285084300, 15482457331433587875, 1605329832558166878, 254262222095692810],
    [16678086352617914822, 14354885155758512911, 463431261260408440, 2991674306496628958],
    [2355389735068138043, 1342774725634152333, 11895634258205139780, 2929548327349133050],
    [2538167506567140023, 8069365159998182047, 3107370259680892339, 1824093180961628414],
    [4703047029452295061, 10416142728942558172, 5468203887240931908, 748082873558753392],
    [8707612471156121434, 3678669807665137828, 12377252753146981213, 1195523729482887938],
    [13285546439087790636, 13796154101723413552, 15429722990437351986, 2581107099263091027],
    [6758635906744691316, 18303394306472057880, 15174387563815189571, 1564556478473930439],
    [3630345788929734884, 8238683871965573933, 12008207811941582320, 712811794580151388],
    [3726862714751708121, 13881839858744528054, 1305128810970625113, 1041135568079827017],
    [1302701473868380230, 14718963358878221400, 4083916167558961809, 1652912365048542109],
    [1106308838137323461, 12451095656891474983, 10922909410479687859, 504400884944456691],
    [6697872609692149629, 6902358112529686416, 5401535258545645007, 1883959432149044617],
    [18130400454523359469, 15193243026871464743, 12319563544432416090, 2528034223378029224],
    [15972637433267720509, 5468266064343249962, 7901459318875989680, 70038903820424172],
    [16014568047874179282, 14662391746657509379, 16849053935373582892, 3407498639127040804],
    [1253524908830386254, 3601146613192453784, 16358270542461371989, 2161420612706681645],
    [4071186569036776320, 17556223370629934866, 7535310435731961853, 396905821624100180],
    [6105231979040296789, 4277563552687562431, 14399994949191281566, 430166577709189076],
    [3367401393193561675, 16574283057796182319, 13644841361595613950, 1768516107910579676],
    [788478321067644046, 251166869094175729, 17036951767940766262, 1226095008621979169],
    [6013077649529749644, 11686711341929154001, 2964647608643067009, 1891785322074927305],
    [2370327310577409327, 11765510686621305764, 17710872316457467335, 38319867369063589],
    [16448091170419982130, 15159053425103826813, 224484648966048005, 372190505480281845],
    [5516438768121640894, 7612563940795563519, 10163617590814862243, 1137384417165171201],
    [15369099878092104640, 9919748987756661224, 2742750859729940755, 859317295590098047],
    [980836662412242834, 8166239495613186597, 2260473497661530039, 3153359969996448863],
    [220922267536744406, 17901219238817543831, 11026974912387547620, 2499901877235393222],
    [8119537446956985526, 7703406298271689944, 4705179746953981057, 2846981114324111197],
    [13749028279296046527, 12887545454422728926, 5021630267842205919, 1358464829677115547],
    [1232672452024917771, 10891598115848091892, 10337245774485456904, 3279084496766465013],
    [13211586801981983855, 9754527388127042226, 2172484929073260804, 2913191899315569774],
    [16733546145868224893, 6109812677660771189, 15006598922501300635, 2371043392852748134],
    [4340364238793211103, 17389265585375261594, 16195467976758314562, 2488787598589095610],
    [477689455225488918, 5334863198319542631, 17473862749202610644, 2392064387662092688],
    [17471250490954095086, 11736146087775267319, 4382879513924056615, 654804671643514302],
    [5731699299041465833, 13493593134695387377, 17407557794297439331, 1942757534434613077],
    [12465683868479946712, 10393176846832007715, 868415655680636721, 2428598049318285380],
    [16552880839781614772, 14615049648824618220, 15990079470175265477, 1630451965564836697],
    [8787391811070944263, 3197519305906412157, 11331802314772464086, 1752790833237231060],
    [1536371139878495201, 3806342930491072543, 10764506707903583525, 1314805409143648084],
    [12452799356436489786, 8668445148097261618, 983873685772534209, 1920052152313455160],
    [1012605348632751336, 4945317947507200483, 1201772825873493264, 672646722727074659],
    [17358745331516051032, 15100458980559136117, 10553459299388131588, 900702148299635325],
    [639178339714267910, 14253793353411152143, 16334321568918122987, 1255686850344830625],
    [6022346861175930534, 7937788957217253364, 17344370102086980313, 2705870547302868825],
    [12661281599117749316, 12767282559329941939, 12285498146183404927, 2494405691076963009],
    [14562956568377131947, 15740485507162653126, 17741686025539130797, 801553866614738284],
    [10405427070802611387, 16623159888940936438, 17496751249103713740, 2907642825626484106],
    [18340194347274007189, 16138957489603585252, 17161940588697763188, 2126333345962104045],
    [4703579571345522579, 1317413152765784550, 3682125029447089563, 2405131667440016139],
    [7822498177628197630, 988987401929883458, 18184394880596240273, 2966104388114567859],
    [11087302856001252360, 10518569409330119377, 16568987865134328139, 563183308647905025],
    [14763776666134352879, 18253859960076267697, 6031288787188833733, 835913050932972736],
    [2252126127916549777, 14877806641569878956, 201720703943110142, 3356639661004210305],
    [4575265948635548255, 3883511591212325325, 7885001351326212332, 2418634758506647814],
    [12718551459098429010, 6129434872860335566, 939859335905519385, 413928316355146204],
    [12087323368649418543, 11383296507518377762, 2507379073058534159, 814671306500506438],
    [13214696900723494868, 3689999393901911100, 14149555649167463673, 1594364610725786929],
    [16759001532850452746, 3114490354304118900, 9831744294189699275, 1100055484058302689],
    [217119821154461456, 13970417633540117262, 12502518067307142528, 1911034754376562822],
    [10469076365601715821, 246784607949932465, 15423014395207378505, 479976856249054179],
    [9502284224079416388, 14170149970311103578, 10549139972326561381, 464225119555363802],
    [16875750814499171653, 6593905844649094380, 8600983202540838213, 797585296549898210],
    [17375786846548399707, 10404488832639203137, 16867131641258568273, 2797976534114311381],
    [6714709994281370405, 13554218505197526143, 9227956226723074634, 2841718457298854273],
    [9343825466468985147, 17658620086763285790, 13736336603271097715, 2561774991701668373],
    [3807631734761802169, 6664442351056621070, 16125099625560061869, 453825424830428551],
    [8891963267978798117, 10678576455740142010, 15868511672160250610, 248127244062417674],
    [6815167132811200911, 17656150979676461960, 3270205035475262537, 1869280788025705334],
    [13213599360331447207, 7349159435748824373, 13737368211962960783, 2632012304658614416],
    [10541655223277898741, 2124514439450859717, 2783136757288040617, 3021771582968010290],
    [9569903262396732151, 18378087461210398342, 12378380818174423486, 2799302164770295278],
    [7753801919042867559, 4709721573256024929, 6119415917888900414, 164610675706293170],
    [16847077650312826288, 11552729742751981053, 11225912778681364949, 2354897626726407479],
    [9075022049349589772, 10814432490676625234, 5267309804082718731, 740927279106250637],
    [16553203161984683838, 3099813102769108499, 14029658427354797719, 464292267673069142],
    [2184553784615936848, 11757163819650203265, 10582661389926465817, 250016236157068616],
    [3220952746648640820, 8320030729859819278, 10669649115406114283, 1086418637973617307],
    [18405277956447503008, 14982111406112700863, 10625978435461412999, 2673692101374475416],
    [9491810183735033279, 10790184269736181193, 12242317361954663045, 1117554643592348028],
    [4547745922543233331, 10366395872893973069, 6383673899937732062, 737731599649287283],
    [2582525333319678530, 1421967461331369361, 116742074431652972, 167111337970838614],
    [305299683159495545, 1363620791161222651, 13433398089957024590, 2977284171439959888],
    [4879378198853408408, 2928793018311521622, 16593051913538983882, 1741942014751680851],
    [9638016953804585040, 17609934043974933856, 11507910945491584541, 1002648381636074710],
    [9989471535139748973, 15761699778213513703, 2217743900164358701, 1545879177371623624],
    [13084241879115323563, 8032588841280555605, 7017715859252614813, 1259611186378848636],
    [13401238490666381287, 11969650048495827807, 5398786305471049293, 1545718023660319759],
    [2697335388759126293, 17032345372441532989, 6751459689672475585, 1831564761515370399],
    [13506061192815638168, 9946585060864571990, 926361526788612199, 846058819638759984],
    [10034186315271822022, 435689092181064361, 8959292102022448742, 640913428479618438],
    [13666126246284339816, 2856034345653230312, 2573040432386079149, 2687739934435892355],
    [10505316605304009220, 18272067562498473780, 10225185528700827725, 1885953750347928115],
    [15853695062728974592, 4004994479546577847, 1123849025307255391, 793373846636198883],
    [7681004922560845326, 396710657816755803, 7705447653955728061, 1522932751862928869],
    [14269036013123166999, 3668762751907683390, 11002823425011690789, 2661503831588860748],
    [3420039146771932844, 2826192287172538055, 15039066318907623987, 2723839573682430434],
    [1417980328940081778, 4208110929571458561, 7139322336651091666, 931865477157609101],
    [5273332546371929687, 3129707508883831120, 17426537398289068653, 2478035807710556269],
    [17331192284982468878, 16448220617915147201, 5258386073992991543, 3438030975257445394],
    [5377937625827599897, 6970679804368788873, 4618007652258431303, 1040224855726291467],
    [16903195649170440980, 6882189570873996562, 19163507188102518, 164782105125004462],
    [7360704658487994719, 16983478055438785087, 13748110052719271132, 1005363315160608903],
    [17847247152572838674, 9993477759527133568, 12583810859117852514, 158821617807945324],
    [14275055880038074087, 18174893085809891559, 7242084724190219496, 2840511680592690881],
    [7462639050934617597, 1494914537908076932, 9103727591906017346, 3166200014708539070],
    [15852398755001613939, 17633529860083985344, 8467248927095598044, 2231822014379212428],
    [7236090380038409859, 17703919917860011559, 11882759971617511686, 2381068906832784957],
    [7709979576693943997, 1908683597500831479, 465337664873029751, 3218357320112718509],
    [5899090942634002080, 12754170500506602271, 15375894234496130127, 1678403013123955876],
    [17244850379380592677, 6082764637829944013, 5576452040794829604, 1757021354714850286],
    [12854180497143221577, 16154995209292814235, 13144970409490822521, 1306484163019902174],
    [654005182263340831, 6039381605312680269, 4263156899333934011, 598365610792196722],
    [15214521712436057105, 7985664529814091422, 11329585880244750904, 2969027536315721446],
    [14889311807055584264, 18300064648842101989, 17219742953022612587, 1921644824639184759],
    [691731107536857476, 7448907463355882086, 18320175510169767435, 1752675576204457007],
    [17210904630867980484, 16785152981657910114, 1134381820719954454, 175266475749825563],
    [565027015659005074, 5422830831517083047, 7646749730922984101, 2777419674274073256],
    [1733668822528990187, 17964032595658229098, 13817303671608011485, 1199370506572131776],
    [6084888139139387924, 11250561883068764022, 10186670896871033434, 3181673895105257721],
    [9193459805093078015, 5264457416774645291, 10290966777231633631, 433349014671694179],
    [5191807096210769867, 14789467065398038366, 11619276231468110059, 2380688811373849778],
    [12728984812357152044, 3867618009019495500, 13668223440943399725, 73910950017525785],
    [1702816858703252288, 5827516589434014851, 1554230434770083931, 2840310714376567090],
    [10172721912675603019, 13853954065140082158, 6774329155297261428, 2748826468172691004],
    [14573001497435242274, 18073416564283497590, 8064707896023539458, 1680444873066181796],
    [16203788945944451440, 15375741775083652763, 4500259394267583832, 2507781615750751921],
    [15269084959633774646, 13670986798706435258, 16584881737597728426, 230536327411467658],
    [12112874726932877643, 13804742767718187317, 12153968408416460110, 897591253651841652],
    [1398871662332061705, 17254564917442506870, 14644380347522775077, 1275118108919170940],
    [16991777256892722936, 26404434208462371, 1573103017331311555, 3210095949150826134],
    [1233459003718073317, 15130471829246870425, 11568980239589194268, 964071917269906874],
    [10519099368499527872, 9792145620450711838, 15414472700395836523, 1776895357983813107],
    [3551191093591087744, 7370344889181080236, 4682461518856709428, 91534509565493944],
    [6092820577863132685, 5721463931362328168, 13065359086696716563, 1058450718332630480],
    [3315238473081029130, 18349954876698712040, 18150591046530948866, 1695669098750639363],
    [6649674127656229319, 15054013417046513064, 363616106552855481, 527322182857513916],
    [651989556907729619, 5006787735079021040, 11933877648170295870, 2271766482889489190],
    [17549646161912962819, 9651255868153693714, 12351527273993441382, 830048142728362819],
    [17250698180337112880, 11653608845540657356, 2577674946454158449, 1927565603085800039],
    [5079150807316006385, 3711457119701579797, 7022976609423256172, 1203299520507888992],
    [14568694208249779688, 16505802152559857235, 18252164999482074896, 53856779551513830],
    [15007798120815867832, 10886460608222627437, 4297028187771276715, 3450113116430218104],
    [5971571444256882740, 2905774552035927882, 7451385533084096105, 3404787185164789555],
    [4416024408969698196, 3730073680506420770, 2725314193535554744, 1016713023463334888],
    [2302212846867774343, 11494128616266756565, 11324266595117040448, 1670774309072838725],
    [5905830029297930812, 7368678006112881666, 10141598238117150109, 1997876696941052864],
    [17277813903955151930, 15478127869747930661, 4451409061045880524, 2965971666352798062],
    [5626106277157707027, 2996281019317502841, 17545258185966129235, 3004878358311508529],
    [14970545538365743470, 14940033127703573162, 8896324040320223498, 111044933303765676],
    [9058224658374661700, 11404910364388890723, 11465148277025463692, 3179471302876980093],
    [14616386341994541758, 16678953468913517431, 12970117229549397250, 3020242022140107950],
    [10287199463056290633, 275327424992766610, 1643307478508676697, 3032984986690503735],
    [12279319824723206623, 12754919070037730196, 15528114577334404377, 205277325105076432],
    [9847048588784688112, 7794328772095780846, 725493019391355129, 644693181071767394],
    [436281016323046834, 11828172412714999893, 5806217123123994897, 264574744179395485],
    [2881312486282017712, 7775402173889336164, 14537101892031570428, 1989892645862089259],
    [2217799698931549633, 11964884832156926374, 5290392857361626768, 2571487218603336679],
    [1926927649381627801, 11591374830484335311, 7933714379461678301, 2784858919229193630],
    [8125414358081993166, 12003387145391803094, 10385954002966278328, 2485916905533209572],
    [11572721593421868012, 6237333575824173645, 18157655308470114375, 894884312571896970],
    [13360534475171752409, 2412408808600547565, 1856832344503423708, 2417468606303625153],
    [3733333193052830629, 18369087869576558595, 1113072951853406886, 1183313285923745935],
    [6069275261078318506, 5318592832014206636, 4286360224999248662, 2245114688887344900],
    [13975827541797010862, 8925901554357862783, 1062638210989481982, 2289505977332326855],
    [7915195717605381472, 4390007976716713711, 10867130419122423344, 2508741933088951699],
    [7879105893318287117, 3869692509542614108, 8817489077565091481, 2082089236924106835],
    [660922143488459766, 17666005678747533779, 16663941789342960093, 2054708359930333050],
    [14908833589028471534, 9849102803158741840, 14510468880818217222, 3346977227242544300],
    [8027696563863212284, 6990348165330181595, 13323831712213862173, 312418044793241206],
    [9551359490828715081, 10705107147573785016, 15926605238676624791, 1186808293873074968],
    [8293123312438192600, 10516326350522670086, 9908722499576654097, 86320113143462596],
    [11072177161061968929, 1508723047089528674, 14157934316143029389, 1391125646583852436],
    [9951797069214737659, 2205258411604632882, 5340664315421275660, 1039223243360620336],
    [17833498661636024482, 4336780526845071856, 11805509850714956682, 3426601666370941704],
    [6606331178555123665, 4672140524233698824, 4384799396347765864, 2228623937268916284],
    [1295672042551381956, 6156989861679385984, 662405326435249033, 2174073839260869308],
    [13448142902229337253, 3650665414710511091, 17486309491428244223, 2300096485009087398],
    [3606175753545045615, 339537070073601942, 10968346790813403850, 1975474893523911451],
    [18184847714238434492, 1502117408761700361, 355555285805102544, 847247799012260223],
    [3579771110090554565, 13168576164197665513, 15446093573867557923, 259625426426178012],
    [5498450167626006325, 14647685551624860014, 7011720236898590777, 2184459088656435862],
    [16640855520686345226, 9663281573248767003, 5376885696302364550, 2607954998220162003],
    [18016333151364429277, 15448711821420038443, 6661563217920721789, 84643649318082888],
    [11448145001394476565, 15525284442678942398, 16169856280764577795, 1484589798940414364],
    [1862459876542143795, 8414684188832659873, 15856729339723587038, 43073612830000888],
    [16018386213549360961, 17094524023932879290, 2224326604398017714, 1563621966783105171],
    [9022146411763082992, 3484107057836405368, 7668932193216776349, 1536629345562525474],
    [6525637595493966612, 9956510671712690613, 1216628294467950702, 1318781464985486669],
    [1109550234582743555, 15242817492747863544, 11835264101759618230, 604369050264549036],
    [10549484666192803497, 8031157173056766461, 8144480765786654455, 1796164406514675691],
    [13418190554030932113, 18058587901107462174, 7443827307549551715, 2501236550115436486],
    [3231293270074857173, 2911231788356104913, 5823122068988405318, 2267204076888965852],
    [7097314871908393181, 4301415976568278341, 9624398365008326495, 2709840316011430696],
    [11565305901017407953, 650535037478611972, 13461906187015277776, 1881082157701451086],
    [1231744186711271671, 897553402268113515, 3411690459479108933, 1424413945278945675],
    [11874190879636024299, 13848048246506757040, 5499637748717992404, 3315344849486788675],
    [7445870430520466265, 11793320448338154750, 2318955671177815966, 2809236881673181057],
    [13406180189281358984, 208794587860855784, 15407766618193883949, 3277741148372354430],
    [5792005218846887895, 766290926532527822, 1745243179460257979, 3306164865541734584],
    [7214673888817771911, 10254592153891293480, 13456337246976511722, 3328274512612248064],
    [12513098761815942903, 6245976995524237218, 8800219122647015805, 2430180575785377912],
    [14316115885408175889, 15705850350443488182, 1077638159668641956, 251658572862716861],
    [2886407794892447388, 9069533444936816038, 1224636416078620931, 442268586365617689],
    [7236246611941891564, 9725282681701622993, 6291052119539270006, 2946177034768907876],
    [6527370622094034241, 9546684756177677999, 12433591602424084570, 1189472818476193306],
    [9684480531993076592, 9272531350396122057, 12157545658331246703, 774685418759554926],
    [7250889590823746958, 15864622217285277507, 9077111118238056074, 690197975014785989],
    [14086034277908827598, 6638150387937754072, 14344559144848858517, 993387703387787650],
    [15500237457083412715, 4749150090710622197, 8395850217783866373, 523099052880390625],
    [1695463878947595883, 17325448084821931227, 380304210992193614, 3216490499591583695],
    [9463286381281817513, 13879005771994916884, 1007849925009049258, 2583689672716909737],
    [14375961426726913368, 2339213632120009497, 3722781047228310089, 2894505686933695804],
    [145819289964421214, 6631685545265278146, 9499574177728507599, 2084165635122649987],
    [11727785852920982081, 4879388147736617758, 4309072303782484356, 2854460351424818871],
    [3703358060138796453, 8504829254031572922, 3884089168864415926, 1625140096652033961],
    [18129293250428613890, 883771100831882305, 12264346291147368736, 1606795374276321805],
    [12688056635920624591, 7982285209377819793, 6364365887841681083, 2020402745725145442],
    [9426185676547897029, 5910469539552824774, 1617094293847890039, 3369683881050109332],
    [2372375687741943427, 2561193112390788837, 491893071263855464, 935234687549806136],
    [11686367335727301561, 11904210348236839925, 4301206838407733685, 2520044232544299669],
    [15500373953577960126, 9384979384509511273, 4644402277988376979, 1461204582247594993],
    [16219119471441167814, 6011888724762670345, 1302816966603031307, 1655375871460993193],
    [2818281016118152612, 15607525178168402112, 14690729463536705590, 981583847012811344],
    [6553822942421489658, 16549378900054296856, 15586343120534546889, 861152128821838081],
    [6841303774277368069, 14305320804260266487, 10657091229326632786, 2541482097756559827],
    [11599942019680524278, 2730279932097465377, 11877731252878983734, 3485550905738498234],
    [627185590118415053, 5997317784491029258, 16469934332325685121, 1821688557388603195],
    [16876714411553617035, 4955004199401901895, 14953878945296733201, 3306794042636199595],
    [15864778218440736419, 2314099735396633496, 12541716796034715161, 1421034973176197469],
    [15761273505855066992, 654962167143713313, 423742780318998614, 683198991967904872],
    [4306240950954180945, 2186657576895059747, 17102762442731261657, 2556359564654687754],
    [11244160224707926854, 3001324874339457290, 18087744898835186220, 1787295966815976124],
    [13564677458668797803, 10187889256221795972, 6413514246572661234, 1599948570950141334],
    [11963349985103393503, 11942771596533962366, 16544980441807171367, 2138661261088924325],
    [13862071941983729629, 13939437639504151038, 5271457619138796732, 193049809059458334],
    [3960347591481190367, 3909257363402383533, 5335468665417043939, 2223465598137103922],
    [1158042950579102199, 16429722375250878077, 2216053477796861839, 3467167634021197728],
    [17248345416583974305, 15806552501127953206, 5682141591285649997, 1660158510206347114],
    [18098384285559417332, 13756589923781255609, 15751897072576254041, 2987637067119697700],
    [267075526682673062, 2396039519704743045, 14390903676978714161, 601450207665637244],
    [11847786253679147430, 14051737450450814069, 17010420156427762205, 1321098822495991576],
    [5450472871411637430, 3275778222656572930, 6615269986715664799, 1923146991512723818],
    [5304125542618015104, 1525456064117880201, 12027231664386798036, 2902918523936336070],
    [15662514608576066373, 2557734008347262055, 15993057896565352497, 161841402138362752],
    [806848010345817537, 1507325167938377047, 3948235255912317167, 1194353649664536456],
    [9889681742407568725, 1425727194923022352, 8706848978350552180, 1658810777185663919],
    [1559287239961430246, 14910902938748065615, 16969404649079223415, 38681005792419237],
    [3944559469898566834, 1116149949665746591, 1563726134762142633, 1485928101275642629],
    [3150257157261783342, 3837285862981297279, 7560697972629195609, 3320316364513497280],
    [8799180411540361427, 1761337377224363954, 7904241399207438757, 2171509323004688959],
    [17831867913609283526, 4826544538550815603, 6726232985276818072, 3195900168147238106],
    [2408002776607534062, 6035430094088467801, 5811438914876789528, 3245084216957566466],
    [14369290124925392819, 3031573968541313592, 7210696762935770657, 2401882770628813414],
    [16491964967619735261, 13867719253500559481, 14392932894632648416, 2070454229777098529],
    [12592901909826915982, 10545731105175249414, 2233878874779473209, 645558307435353448],
    [15820245497420550446, 10939128778027787855, 8012838335419518226, 1965139043994103831],
    [16795801169552194270, 17180316647230171600, 4938117351685701683, 3092601373117025448],
    [14546936271352774322, 10538490997399893766, 12677835494615549863, 2838213150602300588],
    [569681857242034945, 18347227690038987997, 8734754137288199687, 2514578383937549570],
    [10850537661837379527, 11828684543411818936, 11638390267548887939, 1699429548867715638],
    [17620474066018747447, 14840073427204010108, 2899233157267289496, 33773206843796924],
    [7657787154539287168, 14662270089393043272, 2612881428288484958, 785232261307365027],
    [9151705089613311111, 10552723369991886295, 18330619818231742950, 2964532505667207556],
    [17350347753326581461, 4798616225035242090, 17447230173554632785, 368877393745390555],
    [11576131154759069572, 17736892517159699920, 5163475317864260237, 1136324066913860460],
    [13067383846074380844, 3159406226071836335, 15098805049176593916, 1871072041476922151],
    [5766534909350322619, 17853802469443874284, 10549693643380275506, 3476384111248001746],
    [10384625083064969735, 5905526644770298506, 14683778607577543292, 1907315391885485488],
    [16376388416057873184, 5495382923928690208, 4229616636785625162, 1576858637876742970],
    [8553748276202507156, 2444358448041498980, 16789740076924917394, 1586541088844406688],
    [12076682546313760774, 2429039131442817588, 16319182801915830603, 3165665654881356469],
    [18346621852323016929, 13312230224792738552, 5015635292359913661, 2644746921420718000],
    [4152533606603686955, 12587846556588695400, 11227473811974722107, 573643453884433860],
    [7705732035296990467, 8456770464601134976, 9601225609572707148, 3236317508422913611],
    [12688912326611423266, 13769444330302529172, 16569918068311031583, 2137763488942965688],
    [17985713230133089873, 7267988384182362440, 6534437110721176765, 2303603401035331566],
    [9418625520334827241, 9388188075702865211, 12359495897057379592, 3098310299285031096],
    [8018427770594952927, 5830475175190220431, 6684708927053700167, 1246665038487440868],
    [4179935259123170204, 2706528885818567306, 7629369719737142305, 1348273211039364251],
    [5405518471617683540, 9078913716580926100, 6127476865558219252, 1497045467602091247],
    [12958926005964742432, 7449936154354530797, 9458943875596341360, 2461740425265473515],
    [17902834735582607038, 8335487998209575616, 14227704117180280839, 1654057510316546431],
    [8374421131961184246, 16893186799157116081, 5607068794425664411, 1358131424721628184],
    [13582223658088472943, 9157333645206449646, 2787619951535573752, 352059875162371500],
    [3590314856069249846, 15947378599500552216, 7712405674370882629, 2418852404430887718],
    [16858000305857242721, 2587247359759567029, 17877967960192198284, 942295117123031400],
    [17900129233543494512, 1894832067488786982, 8980662456909763295, 1710649956594221777],
    [13624341719283214149, 3403908694044084725, 7604974240800365308, 162391683112641516],
    [13981329031153263916, 9762181033737879407, 401894659000092539, 2766335646156615313],
    [16773738668979649511, 14127401444801503892, 15538057166596387871, 199384699753387936],
    [6019160673484939959, 11752485597685742889, 2914541509393206563, 1205709561200838098],
    [2715223979143573553, 15289264597816988605, 2387650332848564036, 2459692227587001372],
    [220603174095257012, 14544050747558801047, 16031683889989049638, 3187773067490458925],
    [15351208515790375061, 3543798431133830901, 10598141375086970996, 376515210817673238],
    [13809707002761140945, 9036317282022480972, 17199054356610349423, 2729926835001711150],
    [16249319544315252677, 4711928547726323495, 15300117487576878869, 3412952845906412715],
    [5749379899187802126, 16028828852119755118, 4820229581023636526, 1003775932506050165],
    [12187184808566009428, 1278587011045511859, 4134688018634161310, 438048461458055091],
    [12634592560369185059, 9516338914929483641, 11595554616273542353, 2568566390121128496],
    [15320825803298715068, 4764859961549483442, 13241662967980671827, 230892475153847715],
    [5302338246110471797, 6011523934745069275, 11724439976037769708, 2903543160072128587],
    [14096454521965512736, 3472447245810207853, 5573385718192905543, 1657796519323887487],
    [10660853972379581771, 11425529142888638821, 637165264152229554, 2867347813944538881],
    [12855495093672400534, 3412479858542462983, 12909307565586660123, 2749120041274358531],
    [4731577064704250766, 605157982235182212, 17392724239398042605, 2086067164401717029],
    [17782548241523996238, 4211523881077964170, 11858210745387619016, 123212160412786261],
    [18138996095141816047, 14468454324776905113, 14941759558282102815, 3032981959486448638],
    [7642372767366099563, 7169025577470594762, 2056048190185102048, 2351503676636176550],
    [2566761595647372881, 2069001374172653446, 16479261141913542178, 366280014806371878],
    [5508210619419517049, 12793576740124295924, 14557898973832317744, 584523697065612811],
    [13611904626361153581, 266134414434501664, 14590442868366297685, 2907706935638084566],
    [8783900737269926689, 2777273352077854100, 8107151010596948970, 351772856433755080],
    [12189890401067010891, 9248644446107152166, 17204644060405290940, 846142007848757225],
    [12147136597517569898, 10540907268340141132, 11413885866569328221, 2820568764388101617],
    [18257779443160315657, 6627965153451513055, 12119417111547030792, 308066174011337470],
    [12009671239975400847, 13899899221936597414, 13659712524548587711, 1017478331211630698],
    [4066043529177746339, 4550167451709563164, 119425742691125520, 3000074499044217558],
    [9807772150988090683, 11367872622251184314, 17591382681229370804, 2144639627619972570],
    [2652918064466513499, 6308603838221267472, 9710642669628752495, 3143457943677826212],
    [14581024245617683737, 11141095737833610532, 2064302836904215005, 3448008537043980262],
    [1977223421837436487, 13813782293925258111, 5780353251838510918, 22072082934443009],
    [17891050039045231676, 7123434651156240592, 3464314779273869383, 1106737214501092839],
    [4494810397875398270, 2638576237634113629, 5435296312265333851, 2044104742723787439],
    [5295445900130056825, 8745739755507506840, 12167954361905031145, 672854691392583386],
    [16718049172637998284, 17308205882585259838, 13521858831338019344, 432508071263032567],
    [16497017506004602305, 5315711546127555652, 5806210967371812106, 3189854054450875039],
    [1559379356460420968, 8134580407960138503, 7330630315701602906, 281640054978010899],
    [2901267233073230666, 5548466348574318627, 15087492463449448299, 1812132981337719604],
    [14591409290917386683, 7950377740290509338, 2312192188271457993, 1880390708023933368],
    [13912888829544802830, 13005643360804133947, 14606971935170841716, 1667332272828554182],
    [18139628971494933137, 5068961683441780382, 16711425182074935927, 3276937810559095607],
    [8361882627617534895, 9898572520860940554, 1364701950956975991, 2847268669320227534],
    [9883788357669090424, 9556438877243678226, 10394098712768847958, 1736949136476439485],
    [9231606749520468584, 13168393644652404369, 7366485517843739676, 2911457650529452853],
    [13691343529449937749, 8538395535836536387, 6494627723343187908, 100513439518087120],
    [15742714993330028580, 14968014247721524466, 15348591690404548393, 1087348140977889773],
    [11028897187088375016, 2136803001025106914, 11313549725587937651, 1092661945371931891],
    [733411661324519681, 9261431028511234899, 15856860182267221366, 235598135616326907],
    [15345657226823939318, 13992379025093736648, 462966424640726575, 3289414086116095922],
    [18425437380835960951, 15334526621965767830, 15813070337122012692, 691462972482018206],
    [1211264027718955601, 8921001460278049458, 13247853038371271893, 2500207148544458085],
    [9724317598116628986, 1634399074254882379, 429118740831570215, 2642559383342624530],
    [455862111068587521, 14401757568773772205, 14473794913524346607, 1080267409775434589],
    [1720127261383408024, 13995549049580544509, 2043889421317853430, 140492991945368756],
    [7074992036449485450, 14008748137229417028, 13452641298379171934, 1334300647312424500],
    [17976183568686821212, 14286032262554123861, 9293155317502877935, 1747460834565606278],
    [12877147716405549461, 8175365908128923176, 10816884785971566596, 3003193271781353788],
    [9966292085888818401, 7243820134663509594, 10110217610285593225, 2775828012305783808],
    [10667038820414522336, 8278306044148296056, 8832601518421170521, 491351665993198953],
    [15900530559699959340, 6913459246061366746, 1725647944016317729, 1558111507893134875],
    [4330306108906488673, 15094528566062698462, 5499587226686890600, 2378113222843621732],
    [2789660604181872442, 10277689469785790537, 10834091528844192368, 1498951245904587429],
    [13827543185398071922, 6569031070485401606, 10938389332418912277, 3430333283485844548],
    [246711007452392658, 2392100853329128525, 16615063833202430411, 823283453708614497],
    [6395292835489211898, 12254075372481823921, 15658056410007851489, 2348245318146770880],
    [10452194171189378755, 17859884145012561934, 18112471548056005509, 1676061015872762238],
    [3100688182616411549, 6684678458456453402, 1687875106572007158, 1386062415022117785],
    [3515250970806174552, 2103264851049431017, 6732388506820657676, 435542710926918985],
    [15465135791260949676, 2610334040795013160, 16983542034610357947, 1639584216291824122],
    [17133477703877444670, 1684987762736093618, 16011257351327410226, 312987176418134840],
    [16122040319729257031, 4102514917233776439, 5151374672811400831, 413297576456522591],
    [13249451152892804315, 3319789040553401, 15836294991961310966, 2364486437076034519],
    [12509523875444848003, 14060001930931039283, 6831622221251282713, 1652917057845703708],
    [1685898074028625534, 13770629462511998109, 11959807045124473479, 1987822282072594668],
    [15642378070273145630, 5568660641508542262, 4397715310143135076, 2871061347004120464],
    [1029294152320932176, 16913940977936041873, 8309169684374166780, 2385073490652522200],
    [746010695868268446, 16797513841612280906, 3055308426351159709, 2951534060873881171],
    [16356707578702009333, 12420504237288531220, 1315744836803004547, 1611088965567080513],
    [987818189148277751, 13199531723579174545, 2464711016412025585, 1482660676527314733],
    [16869217697612711005, 325756070129728885, 5675880572887876443, 510085179077758497],
    [2865041250790914643, 14393004995398711769, 7804072740428470780, 2816111681820732534],
    [12614465024982961257, 6375682515045955646, 8131947336605354073, 2103480332011947466],
    [552770563955931502, 12519487005792463537, 7717775237527540144, 1310436750134395742],
    [14172142513514503003, 10627076680742610465, 13326929929910032428, 180530424574823060],
    [1465105626661621835, 3747208513337795535, 16723567278369770589, 2489029302034000828],
    [12343587964816830930, 12258089245285128413, 14187207688468401751, 3417959441633250136],
    [10303267826112122173, 10777897666923884257, 4486727529996821428, 1359154751382057630],
    [955009704451820930, 15042979319703043883, 13058749229620077335, 1497786615993373633],
    [14817871969640778850, 16556922528468880609, 17697697040550849915, 2259479883900840462],
    [3100546583395995448, 13528022459933641277, 6838116054629158178, 533865167818916878],
    [11071671542131131207, 12704689165856637392, 12520549849719856127, 3135910528371978831],
    [6054748904838669596, 15130243444584144228, 1882517672637614748, 1740589686760791285],
    [17260024269263076061, 9381474111783117441, 6843036911456044484, 101701116522313032],
    [8419196001881101831, 2652343376047679114, 4896482443848630610, 2383134116690317181],
    [6861796026389253509, 753279271032143289, 18360998110065636358, 727351233323556803],
    [6109143101207692356, 3792243675839955208, 11347769599561181085, 2909423135873102124],
    [12082389926685833641, 448534907984413617, 17888523816886653702, 3229262773471312117],
    [6055203809552171317, 9934868716124765784, 15701681528818916052, 2435927230216941637],
    [465410908829041943, 7715024525873724988, 17911076472419395941, 93130586844992063],
    [11846368252590087040, 3236197869344655075, 5736279291482919052, 791143556458860821],
    [14691593696791495208, 10162303043228729049, 12547074323327271893, 528853841897503272],
    [4323085919424090663, 11411953431351024565, 14110499905081359983, 1579100447329874516],
    [13257693044375171109, 14528583979645858095, 7430410133898705725, 1356737505500361304],
    [9380297971668416750, 1317842933084024928, 8768024501194473015, 391989571046863049],
    [6881208032788141834, 7916699028773621956, 2967389471727285690, 2429386080640595864],
    [17293082812259222003, 3792062036264304410, 12616437039781096538, 853212491982820337],
    [5222671078424178333, 3473983899096142576, 10431353073526988488, 1272380133053151773],
    [12596951348691022800, 17604532665057858724, 8335492326921289690, 3329020010140360068],
    [5571711010995019179, 11242325529104867062, 12999576493914074259, 3370403449250399478],
    [867725246632007291, 6525981991850823986, 353381398599660261, 1403565111076475447],
    [16236236635939671174, 6758480908318697700, 3650342527028035759, 2119758515193670510],
    [3336446299317365214, 1139446068786992366, 6301601390964434833, 2274379354821252013],
    [7826607349169639293, 12948747531771660148, 8633449283999976253, 3197575688176740380],
    [8896652935993395691, 6947689831865806555, 8439915531877496314, 1303756371128575045],
    [14295551072076286931, 6805449227290451904, 15264129998412662088, 2105915656700247017],
    [17199769130902209079, 3102827724110536498, 13870596274788318711, 1463378186889960533],
    [1673324100143607764, 100289448146758205, 8287717239406617101, 3253403263256942560],
    [3424939813750505062, 7666165754351648061, 5973546481976889084, 1959547680029357622],
    [155384380039951671, 6359581173750634817, 11696834319070187342, 1912979989250169954],
    [910649248447638694, 13154143674818639249, 14385781961085400959, 981082198614104369],
    [3618459854656358565, 1154320830530224528, 5390821555900621860, 1578283556196068532],
    [3506001113416857445, 14131164022150783125, 16657486944950262404, 3321394935589992599],
    [13178069628981620643, 16540730661608259793, 5518073846163708771, 1332643261935303193],
    [1873521003729359858, 604602413333694865, 13174691347645628169, 897071307468489040],
    [5103527194504276519, 14228596983393808879, 10188440168181273450, 1230635146640430831],
    [3886180191999608902, 10799674627060264905, 6240222980388982756, 58796535415826601],
    [2486295099014695207, 10187415087401962847, 13019429057202329332, 2671495047790524094],
    [10371626506132501706, 16814741878808059770, 1602931505268087365, 917928151914381426],
    [1170465678431715628, 7620231672560232664, 13585452623715589239, 886747820066743907],
    [11048200302355522513, 10528090717394039509, 854486371538295004, 532468567062414626],
    [4661580414709461317, 2678269494848174440, 3238731319846269515, 3339291151741440044],
    [9829536500376048513, 17738746199820080316, 17835677664679249207, 3274788445253746532],
    [14503917084269445, 17517999140697368883, 4845781153798595445, 2539571640193653875],
    [2480347864503730104, 13075153893648290556, 5448966949088607362, 2325977392107732887],
    [7052326331447291394, 9616139640567036706, 8615192726328540885, 1410436600621263171],
    [1325705614416513833, 10973139876032580439, 2223644499347306481, 1242119815419398208],
    [5797710341067762934, 8058215955544941756, 15828592925671992522, 503898134156620480],
    [8478825903873611784, 5898219986339900042, 4030298688186415728, 2382102563264686223],
    [7224276196898464120, 14898442105520583733, 16316041043430105587, 2951356466685177401],
    [8080865200962377010, 7274917885383675087, 6130576000353086538, 1131432693566966409],
    [6864518244283098021, 13194052980578484135, 12955332161321334299, 2262929446851278267],
    [2015391665330300611, 8135049996741060886, 14870286708193843607, 522106509215048937],
    [8394774433328785846, 982273769281925063, 721967455297673369, 1312449273649614533],
    [5160322644056045578, 12116707279958122339, 1774830943091389929, 1628818335772006389],
    [3980198751817395975, 12296123723751813599, 13997522948239827037, 2467349696465810793],
    [11308645705134582396, 9116749690573404379, 5138764917838107147, 3061893335777431432],
    [5080676090485350578, 11500870040253514374, 8866730439665706416, 3258157100157120333],
    [2675854745388818380, 14923555220403045913, 14059726336570432482, 1689459456107034129],
    [4549883506836528236, 475016856610829869, 12358525180765772787, 2012020229889703690],
    [13999264354038262676, 9075003974026488851, 941021503125610061, 2184065826139040555],
    [6423309771518576811, 301677815500612468, 9105077431185734346, 1956371390240025190],
    [3710244260230045007, 7441720395718378345, 6999470162461383288, 1117714818613303744],
    [13388530151930821717, 12445933138707166425, 11013930903368025361, 242929745701917613],
    [14439810514964863440, 10199016234850615485, 12311756631587572037, 2566526522782355627],
    [13281873347016326781, 6759990432826025172, 13159099715843124436, 2524941458148241850],
    [14399397050365650537, 16372087575003078342, 15672203498889999690, 2314167794777972110],
    [8548064694633112736, 10974173754325720943, 12004492030537887435, 2017182470831310170],
    [2605134842374438846, 1990246967260164289, 14249633095792531278, 3470428736598006703],
    [10145155517526414227, 11340414430283774440, 6115038903195392198, 1558361118021782721],
    [13853212566261175907, 15905710475976227811, 12823316410938993734, 1550786969834168826],
    [17349454313462021971, 17280068102076132249, 18278089734378879145, 2514489018412133144],
    [1892373389046472648, 525638142572106723, 12792955698591956529, 2679310200736009],
    [13292374934483269320, 7205470339935477098, 5456740022471640590, 2741481348595298171],
    [1101045245177912494, 2433125138536613815, 1938073678868147903, 10945544690813314],
    [193271101154063573, 13471264128948490410, 4168477788858483236, 823118169529565955],
    [15486865041335473139, 12365349494571828984, 12931026378171697419, 3239772847864758965],
    [1643338721438670434, 18383266964227621054, 4611950193615544934, 596351375636371655],
    [12511091766689249856, 15035639011681565646, 12962703573232686293, 13384418543470269],
    [14690062071313362823, 15822888164258309105, 16864799546484717380, 2083195870802058316],
    [16739684026593165773, 3722411873810299873, 16579373394318788659, 107375080555172946],
    [12354663762860688732, 15607699967499505718, 10130445678834253239, 2868903874538524980],
    [16506287972123881299, 6440686529274464279, 7576539706553301464, 1470553537031386209],
    [15931434701641304146, 17784677912765851615, 14942132470726200347, 372500601289639949],
    [14631978696473907545, 7391365037380791170, 2012844573697480196, 2194441128579288345],
    [3994407492631143462, 3355710866897885612, 4422936542336520393, 319928890295299828],
    [15980205084327764732, 12926284175018251185, 12712455131865017376, 2898098563922306399],
    [5530419333221871891, 15563217815981413115, 15272844523124755050, 1589435938925345353],
    [12302929589749182539, 16111293992984893132, 9470851980050265183, 220203718738567672],
    [6393662195461768250, 10363883396025004087, 4394218364188781381, 3127379625240077541],
    [14581468839514127187, 348495379007934552, 12190553186200555419, 2199188940930903499],
    [5672250802519418552, 16192880982308550660, 16996421757815581994, 3107891349023752014],
    [10467809994614206950, 1506418254100638904, 2490821047286547358, 453788266676902459],
    [10830429565094573079, 13639067137139011756, 18327988434603268050, 2005501059333897870],
    [17125315983877354544, 17307343461411124537, 13695554282016799483, 355716426888340308],
    [16996172369626089179, 9119338663947151530, 16434610854506484677, 3405561478417812924],
    [2503604411635028841, 18240676717554330886, 8588916003178101557, 738551216791269380],
    [17072351153301739872, 18375560198059706668, 1463724095164108014, 763984772978173367],
    [2721678217717631098, 4978117977031208345, 6611390508597237855, 3166770318979153566],
    [8274460834512687008, 2833680370107943337, 17994871941749390138, 1485319584106755162],
    [9060006373053480737, 2735108931630090851, 1016465167070345996, 3363401921547266647],
    [12778809550791933663, 4840775048468255224, 17775014052739465967, 2022808497333455307],
    [8409099895452829595, 12155360132725558190, 17779219237703798456, 1592342494526079233],
    [16957800273178113134, 8489196768210317358, 1931491944591570653, 3160484294299544742],
    [8698350380605467197, 4751571996074452249, 16615801985036681390, 2126609905980962320],
    [9458173399806378141, 13417351383606848365, 10879793010385637249, 2303490437965314403],
    [1632976617168333608, 17562375298323869498, 8582419660156377862, 2612364536659637098],
    [10067042495649002470, 6672774609224453613, 8790692667134051575, 1217617091204187720],
    [3359185217355997794, 13038432714798309354, 3487141772721699960, 3339068942393434992],
    [612945249691453173, 7402102239710324559, 610852699583995315, 723267715744095248],
    [5685671351278672132, 6930448933450915112, 6331711903109315320, 1916077740249547802],
    [3569005198884484493, 7229862992975983672, 17625220285927520718, 258013896152556836],
    [7188018154363065745, 5244121666365976765, 5936679539130193770, 1303457355385145736],
    [12350661031637966851, 3693999230086805865, 11096051834934489698, 2433415627731957520],
    [46184023468937845, 9536887137325375680, 2722155015512976417, 936997128789474642],
    [7765069084291772377, 10142453732758298009, 5722477314926392300, 544995888115786603],
    [3756225005222978944, 15381601714695251059, 1443375401453292098, 518314801436334018],
    [10797177811604899251, 10190174932967759665, 13479220088172727738, 3218532165521448961],
    [6858580103251201525, 14776834875352246777, 4832307575896662559, 1899167335515254256],
    [3505466042772106778, 4267955303828932809, 13081726348569555448, 2109557519987182832],
    [3952094211050105174, 12338193930245049989, 8208489376562324786, 980024420048806860],
    [3719085419168462176, 17602090626158662190, 343987877790753601, 1944481144923825891],
    [2860151129067440412, 3145786363892408775, 5596211769683919321, 2062386844151895142],
    [11343337803042051040, 608582677451678878, 3038223175678197441, 1842650524601857548],
    [9970363248817296983, 6619412110271886062, 3596192352676850560, 2504905004477215104],
    [17117573034695934393, 2088009063679639285, 13325919393823734413, 1252211364302482439],
    [16606136088146997388, 16141346329244705821, 1407333941061155997, 2473827714214168503],
    [9237833013295204325, 6829273149764703193, 8062298034226845415, 1808605489417323088],
    [11894580989567923854, 5657265750406449305, 2558515818433907514, 2851177954376714642],
    [8291346033413817800, 4522186716889748565, 8314043392113476041, 2777946887621036483],
    [15897242397485473580, 15404862791917771457, 8879456773720009747, 2389279800525080431],
    [18202267728271217693, 4694399344007186950, 5434919177526727732, 2376766828593261700],
    [4854524898702741316, 12127533144696553533, 219176105412053177, 1886926279847158743],
    [11562512016674365753, 5347365739708876316, 3151643630650743047, 2427787208027597169],
    [838044961225295318, 14020451374537888521, 17807182356514488618, 3204893332090257464],
    [17950398592857930549, 10002055415005002742, 16540595355728816252, 1786068131125554615],
    [13780345935536725191, 5144315967640434728, 5430214305239613883, 1400536658970973435],
    [16254376654994380456, 7708655934078657752, 11639729231958348498, 282617892195217597],
    [3142881765238134736, 16864824485177418524, 3204193225903004378, 444153249003577448],
    [12396565799626870998, 11613702209552997387, 2407247051908576903, 2236130597919607063],
    [18086061307054420284, 3534630787418832943, 2703756557667331497, 398895086671777850],
    [18129010386516369778, 16747765736772810275, 18057974143362135944, 3451346086462541709],
    [2112228754835869080, 15950856747288188500, 1368957958773419041, 3020037402842147734],
    [2238703661206567712, 4118296196515768951, 10225565688666537116, 2673512424988950175],
    [17189438017980010525, 15060818288496068271, 1073470538569926200, 1058433363764623888],
    [13222408171129712770, 12898463428673507025, 3545178399530141398, 3251695600819211335],
    [9112537728953029974, 17919787934708868313, 2333416099738088008, 1104363182063529333],
    [502846765786930427, 11548168545517483715, 17178997425147977854, 2179946359443779798],
    [16155370155080463095, 12760963021079600884, 16429019087227890284, 1919535414475991491],
    [2048895403811228073, 6750724963934340025, 14133896033679549530, 389029213749444525],
    [11300009332490457312, 4509833846571790648, 18166438751534705766, 161089025541344570],
    [9922525122807939766, 15905573027113831879, 16687617362924392797, 719099208521581837],
    [11971442696403170637, 15309033457234287608, 17103197021094039079, 291472470877368579],
    [5231464769094940987, 9337695624052004644, 7480061633162781667, 3327795877934101186],
    [8871963367444151861, 14233815810097859757, 4393397770447293413, 1839483969455444117],
    [13658841012591418148, 10967391346107300436, 12185646332906761583, 3425707576968391362],
];

const M_T16: [[u64; 4]; 256] = [
    [1745482901652996249, 6490291090995499438, 2336316913173736310, 3129957469476575580],
    [11281629606028324019, 14987549475956518317, 15271843827953757398, 475999997813582558],
    [9975276325382994841, 6146812997115522511, 12296402271349999776, 2280211179169746201],
    [10521602798278590273, 16062943036994848789, 5492118351837147467, 101171957688531637],
    [13382419098222077951, 9317919624580885377, 6388927539724628555, 2255876513113208734],
    [1006842403204751273, 3873823863851207528, 12221085799242458587, 1111008987056742335],
    [14139602718494225739, 12683362439235733200, 14321888627102708494, 64964715532394001],
    [14711093499039221591, 11895160601278289449, 13578758196876693174, 298831197783463256],
    [1045454987084497717, 14797892881088021653, 10669952061659857986, 16178752911618218],
    [17014832184572423428, 841099443689204941, 1406743961988350095, 2118646795126194458],
    [13661245514320376662, 16711874739891054012, 15933694901607712328, 1063391824220957773],
    [15463742059640768003, 13964584986835313972, 149804252432779085, 810190665855391790],
    [651341760314805005, 15874315203537636550, 8873692797545916623, 1602354457271374565],
    [14762301103091302859, 3703203031405154472, 9898710596942630266, 3299609054206319401],
    [1234784884566589218, 10649662915887199098, 13743257661389191960, 3204573225076734192],
    [7369894118156246137, 18407687438877849134, 15920229328958925131, 3094857966300329862],
    [7586014228730429079, 535191632216673953, 16106914242359158273, 1233147097863494255],
    [4703036448308885067, 14325963464969650004, 12929873363295737461, 1763913682820263457],
    [12801387526249521841, 6300073156885890965, 10854333207685866884, 982504754991331157],
    [17444036883452742027, 14733050758606595171, 11795730472104916758, 2324912823679411428],
    [10106316195912577262, 6484053058589912401, 10631567425412401429, 2861063822875669786],
    [1623071836775102457, 12421681903130719355, 3084816584139514811, 1728948653405195165],
    [14397004623666883161, 1525780616994627948, 9594449493508486186, 2532927192915687089],
    [16887483855148608414, 14631191872287102397, 11360662332192561794, 579913395061555018],
    [9353293726350145591, 7332842313980621723, 10462736909535378872, 3106358848010141599],
    [16792716346114742086, 12687871337127890267, 12130801836741100763, 661751827398549954],
    [9426832660931074047, 15835243715220196417, 2794943879418539125, 3030772720194616392],
    [14224746093279173244, 9117090143333476894, 13230310063648057135, 1189996224197112488],
    [1097927184781731693, 15693864759999795206, 11332318270147573418, 377904316588738121],
    [7831399789147516526, 1046270949864569345, 16224017213582241378, 400905777435431948],
    [7660474700919696283, 1857593932417140242, 12195544842011293456, 3338921722553554133],
    [12420870634117191096, 8849190764426100497, 15942963968025248070, 1465359295045489010],
    [6663176187848309384, 3791980511334978318, 12287522940281857204, 86630045470555998],
    [8002849300594531377, 5546980058814250339, 2974379338554273689, 1627268452967216421],
    [17174338255291163705, 17759097381816076255, 14236419266223534723, 1844283260343348002],
    [16914311399674545637, 4275703907360053462, 689529707559516624, 990095249917204224],
    [15189223257175636235, 1196080469680641836, 6752391692095352328, 995507830521520254],
    [2518831406045726921, 13999039875400197331, 9971164076661979907, 561016733979333764],
    [5664271979767782022, 16525317388116801043, 6611326728164693643, 2263425065211834602],
    [8224220752916954604, 4621860601666756154, 15409129158157010413, 1586637516355740349],
    [5724046953367710216, 17017155129413983067, 17447268744114869846, 2708647870444802254],
    [16515372102351028968, 8150592546267520408, 17192459601573748210, 1483214250625925625],
    [845881550759987795, 361374611760890042, 17514178201510226652, 132743688847582546],
    [18072915920198930607, 15918962001445497290, 88712207810226608, 1315468906078953879],
    [10692306669385338309, 12738569503394075579, 7674589120973041416, 2409985529258214726],
    [10775693764205102591, 5874554094578353016, 4379556796486733363, 2515752056660158046],
    [9295234982110032089, 8917042690495156432, 11510332313796994994, 517530183797351288],
    [8080866725213842677, 853514384431285576, 7041645699293018396, 2742539463227059118],
    [1043994018595886799, 12312322688350850884, 14042031943126557191, 614564636313065672],
    [15285781626773668567, 12542902916404377497, 12896228929877300119, 749993438836991785],
    [6816270324480942349, 15680350417649894069, 14735629155154709823, 3095486284508833195],
    [6329149863428347644, 18314129828142062148, 6349138699280834086, 1275427574454480255],
    [14478045200311961480, 6501907011573918434, 18126274817588998702, 314233273713433289],
    [11193307386045942810, 3779088227649452125, 17257683352825442603, 1036276507793893584],
    [12080980231213054411, 16789193161099340394, 10230889740936796833, 927706999882339367],
    [17594190889310013013, 10009346944671392260, 4605737515079382778, 1575934799963603571],
    [9364705283716238575, 15838388187167219958, 11745576597063556146, 3260648734810405401],
    [1566333162304473280, 7428378396549799207, 9539912979606334719, 850254995159870793],
    [11888624594081927381, 8270704451912064207, 10424723864447365048, 422793667663562921],
    [4963733036294706296, 2248426930546683086, 10608427004872641940, 3190340307929027287],
    [17892039151178034521, 15985078506739440259, 13761921939651816425, 2562970906321881385],
    [16658930913954637949, 8466508149474871198, 6743935014708632058, 1574003285905135550],
    [9102198272309664703, 11467556387696160916, 10381735666014019001, 195609095047981315],
    [6946905268381089259, 18378437642075546300, 16894315738560240755, 1109701592225671373],
    [11132614913179467553, 8254921493528708708, 2592849006887649618, 840471404422529483],
    [13284041554551760447, 14633491560750698939, 15131073327332820957, 111151350702586776],
    [14326327011276277034, 12907914501888958941, 13063168226772157681, 1158908144383250208],
    [15788892929875797584, 2632458169907067825, 6465925656518847793, 175410969088665327],
    [1425612009539420881, 3765267470132545107, 16484903541806727904, 2718332477137082410],
    [5471585432826948514, 13503817122746586062, 17052661723201283056, 3260777617721587364],
    [4059155532901543398, 7386979858053684733, 5147174941169142539, 1726904834198909435],
    [12752921277074324140, 7650265461970315024, 8895915694958261464, 292084022646645881],
    [9287904909835028935, 1183900653677834923, 18404016875259773652, 3019822105650009249],
    [4716763959365055013, 13184638783586139413, 14935250070575304042, 1305247457857184558],
    [10713483410069780157, 13481361185166800034, 3282252478110509932, 1083419086721373120],
    [3882175720130599289, 18092321200794312184, 14372692889277431959, 725051416784003084],
    [3569554630926069857, 3770227602119430787, 18404727554844885396, 619505665117009543],
    [940593717165765218, 13178958401815763479, 15479478873704310073, 1288225430892147154],
    [13363490655303223622, 8631099890492281190, 5154813391473588198, 2114956525117939155],
    [17877528785177551901, 6853282014990524186, 3344614268564460101, 1879610604514644575],
    [10910396789777213169, 11692521769579807162, 5428097661737857362, 379009538054646906],
    [10706736195019238577, 16575914852413107972, 7000675681977545154, 343940188393983168],
    [960122005338787406, 7395221729998093553, 5569782581071005290, 1896424516651730410],
    [2438645539330092296, 4110700728264102445, 12483048216562943630, 3366138727334655638],
    [17240718482547774062, 14004643316632678163, 5273649109160208611, 1735444625810329758],
    [14198434221088893506, 11438615221789862731, 7389405319263519470, 2331295993303999051],
    [6659504045160697667, 12642568764608321821, 18409477951887129985, 2892325295376282355],
    [6309437454405055107, 15301086163303418335, 8639616887155597715, 1923423175063851870],
    [3543849729587616075, 3509775074913293237, 16263203939005001215, 228384400402814973],
    [8928734385752175595, 1638162633912445535, 17583612075845919336, 352222993774228036],
    [114516203686935428, 7973076010911319477, 10993985235742308473, 2713889560260528829],
    [4455713116386259485, 4073071965273844861, 16338923679817415044, 3409822110506428522],
    [3313456959985406061, 4686233668183811669, 12450994474868434247, 2144830141393734163],
    [17618682885494051496, 2053469907785590519, 8057929178769876834, 3144524387915385975],
    [1117648468929506978, 6333310693094554622, 11895231868198849620, 320617454529218761],
    [2204993468651129972, 8631238715434436083, 3082712787266430826, 529746781537623690],
    [15125870331682647976, 17957980826275037664, 2973163790066012616, 838223015449944213],
    [4369561104764494305, 12534206751960742980, 9859688011329689610, 3024914658177547925],
    [9867566769868888797, 4665738413068387931, 1952162009373908772, 1379321443692399526],
    [5197681961047380972, 10588963291578905986, 15833832704232479835, 1799943538329256695],
    [11067212554366690291, 5951578600325568073, 4097473194237747808, 1072182764453060142],
    [10265699953131909382, 1193635079830457955, 12092471714533047987, 2558232626796873088],
    [4142217183387251405, 7096085124992041101, 12907794354596906567, 1551814126530662652],
    [14013197681963300325, 15833831207978288493, 8535757845843591948, 2760616190318125454],
    [14052362410495565786, 2318073103863647704, 2466210714612704964, 3359708094452299065],
    [6401276358658002865, 4473658490771552594, 3832987714686312550, 3288296480809745900],
    [3357672733020901636, 14312096054299659564, 7705941398933207229, 2351129646376197196],
    [15900147086680846587, 1307369833044765468, 7464454561977973477, 212183680165091577],
    [18173835041901003613, 3239495221824274787, 16389170852752142649, 1024722507638514694],
    [7068123024998121246, 5834579931429299849, 12685500288172402916, 2671820169340127444],
    [5224635651398745614, 2350189760824351426, 11499138251808285997, 1363504522539938044],
    [10895985712763094734, 6695913484187206159, 9065955775653216356, 548318289631163511],
    [3806609779028885500, 1449964263992656424, 8933722272562823297, 3316357942330234973],
    [4274248573724360652, 8973760630875346758, 9738163169890939369, 3084742075756559745],
    [756760210698169233, 12299700926460613669, 12066338012401533813, 1389131944368906178],
    [7684929452000245902, 2324877527585721908, 2237789378558952639, 2973355357475136378],
    [14308688309068074292, 10695671353086097058, 2885899455411232585, 2336890212498913124],
    [8258979528751506847, 1294179647660534253, 16856929468105516289, 1405901272958257311],
    [14166496171704404640, 16110319810497672242, 605685163173923348, 1715046301660530493],
    [417019838024055507, 16853502466048592699, 2569614117068012376, 3306339203834062600],
    [6184579112352481465, 9292867209388307111, 13234919096369690982, 1355254894086720157],
    [2310265827635125379, 9242418927751510467, 1325411901850582603, 1078042488228392477],
    [14130424834322251261, 7391460756401244458, 16496412788630038688, 484103480700862456],
    [3163839653864190478, 6387471822563126955, 17206551419916151753, 2570003753911564096],
    [5875481674395412587, 10569784131652699379, 4108233239733816666, 2482542709363445952],
    [8941224325346962641, 12575212008037048541, 16285728362893031562, 3058807157843552514],
    [1663216566786338121, 6668793675991391231, 10664475421021874105, 2308520979076145501],
    [3007982422367704876, 8327771792770867004, 5649837355159249441, 201021153187897542],
    [2666279854102118327, 7257199560191418698, 17034922879076208568, 1040089350503601565],
    [1190419504433120419, 12475865540620748930, 12903598044065759284, 2572476859171230454],
    [4300899819257427440, 12599682058943484904, 4049939295886433367, 1437030663231239929],
    [9833486033450405262, 16102448974090363855, 2866100484488703349, 1071723391688743422],
    [14253231943956665265, 17462912560621720807, 2989733361156470434, 1603673495428244188],
    [5792296712885189185, 13273261011796925168, 14092301223541109024, 2885757476472356242],
    [14948009416351685403, 11839717882236166459, 15820711213503887148, 2123201589590444321],
    [504977250996355210, 4161103261453569147, 17634267967016943064, 377977657713592722],
    [102111564939237982, 8742486761166554361, 1818222276999681376, 2112077883190863087],
    [4746269302813124772, 11731800047314958621, 14155185764881114582, 960346563628111072],
    [9180147398579816880, 11319419970578319621, 2917936043586968464, 1355450606802949213],
    [15158851515897481213, 15215967318013405636, 12376777688770847555, 3100883181479430555],
    [10875041305327670389, 11834473430160827024, 10080458019016122106, 1843995339837184236],
    [1121689283694196537, 13582930229051813259, 11632487793022336770, 2280673294040301586],
    [11085124198538017830, 16324298649724255216, 10000329156451646059, 1739369083238630465],
    [419406224459438543, 2665508718463589548, 5606683502102520853, 1430178041979967664],
    [15688484683669445820, 2058000095279758030, 6877562891272027298, 119242743100573671],
    [1762733295564530071, 3591739780857687548, 742200449760230019, 1254266544658779715],
    [10230808433656444133, 3954923035647980500, 4923327879146321814, 1374923139435596130],
    [6026043067805986525, 1181062677457831911, 14425670249942474293, 1384489686651473594],
    [15558091475630981689, 10911668287521229942, 325085163513442071, 1767590869950747201],
    [7040850252811239940, 15473384503742883605, 10905060897556190604, 2251899407587941908],
    [13972106158208664164, 17314258704518504212, 11520973324090206175, 2347913341086432012],
    [11529000312922842202, 17735439596537349838, 17143307232598409227, 11143561910538564],
    [7318876200324769155, 2290060268790400529, 16959273399386815704, 200906146326137737],
    [14517437882095386559, 1761460582351823856, 9174267545948311120, 2679211545028384000],
    [14643893382244165262, 16905136178013627727, 4145132736149880129, 3001602237345545958],
    [5815840475264433215, 4855991024622777459, 10275265476562387536, 3484110645585851801],
    [15246658027363616250, 17073015377129556291, 16346210892304867679, 440641248818960707],
    [3565114482245684680, 14958832651640102457, 2470008402680039609, 2747080717700131112],
    [11050219672407337193, 14917794348078594682, 2581041430890122510, 2179017569409285548],
    [326996421414761172, 2594714000423408707, 14225585456222800763, 2118477258095268201],
    [8128581794780388637, 13817341506428388790, 9789616413609216741, 2125705480675808857],
    [14460602323658248319, 7104702134908424208, 4919659047124832529, 2280918093661157170],
    [7249376438543964056, 2433457685360015042, 7194419057767796835, 390281329430390604],
    [7459311595602612875, 5259169967293945833, 15375435136469307308, 2757949128289503232],
    [13586579896446093810, 2820196896456134536, 13017331232616989024, 2530790550134117515],
    [13030375145387628866, 15613365742211103572, 5212829421604672184, 2067099135267765184],
    [5763278289407961871, 276290570174645883, 17830735005943435311, 827169122033820213],
    [8344175493765765448, 7923003741297734078, 12938478352322968497, 1700815533910051732],
    [2585604870047540568, 15933630050875085341, 1802712413121028433, 1780670651674055338],
    [18213823446048296595, 244998475125866064, 12544535913950191723, 731739083015586912],
    [10321856307213167928, 14011896161459224446, 7177852405714787315, 1758469249960562844],
    [2029760683609298956, 11986723589457981930, 1863678395070460831, 629833095837481338],
    [15822203646636400663, 17694711236482368822, 7200546051431933246, 1819881582159109787],
    [11359017768987315842, 12215846394578164875, 7222419238476720116, 3317097439332407257],
    [12318822849787100674, 43636996181589332, 1645463001996046892, 2946861637968664850],
    [14818007963041507206, 12793256185314698748, 9416340157903934147, 2056413270808473666],
    [8562641451485894387, 9432192552588051854, 12445672897085602146, 2887408057455708454],
    [2730094079228085396, 9306430065954861781, 9446285208283090352, 3342780829011211646],
    [13963403343573213794, 4086798754011161923, 3595932106432233272, 42985684506257936],
    [12818913577041794063, 5333596334910482277, 5251499120843918056, 501373428186079384],
    [12276351963299295557, 11009985912843638608, 2297136071234763118, 2291954607659425206],
    [4946641145709547659, 594051378985451023, 16942607654605570411, 725890302628229566],
    [9468420745426295013, 6282669527035068472, 8172360041346412311, 1953365207798538321],
    [12290153028067258327, 12229259175978352570, 6900031052495674695, 621213968175569215],
    [3820452897400044821, 12861400213696544655, 4424974442547548159, 3107534445614646905],
    [440195891799312482, 2735757478342354538, 16547686708100082616, 217450579395275584],
    [6451616945308502639, 14338174016018575635, 14098426621191963440, 2680448220806295053],
    [14412002083642252897, 6966717158660239904, 9534536799078352836, 1355276603060044234],
    [13387425384966582254, 12868218147519279772, 7003523938772554177, 2432174177838215056],
    [4142567754752669823, 17790698046417626765, 8541936880433580677, 107698064034456605],
    [8580117450537685061, 13917691283950658176, 8379257153254094784, 895264986775829472],
    [16966468571106866176, 10783381581822506307, 9900570716912311337, 2342609526451869759],
    [12604850096032318925, 2572361328538265830, 16098137934423283757, 2599936732924954711],
    [11444359950438700273, 13164316560475220642, 9542723554084950302, 1297849548828817413],
    [4385178774244030692, 2597359654161032133, 4585557415473666251, 165391682630235858],
    [15690642683293045886, 12467162863156926836, 6492872713940657028, 3043482638563995251],
    [9578181847907488265, 18065145832822050547, 1462805956481769133, 1115763486354158412],
    [10080579944272785835, 1007797666800909790, 1710853457982047638, 1666398164310704778],
    [12776389550395241115, 13124996116865122774, 14950438109165259883, 2497508176274133996],
    [11446670810329866432, 16180530778864377355, 16007405373556706312, 2441618446682610744],
    [15768674435930778822, 10615685808859862316, 4728931072364329505, 479508006883921635],
    [8590530414153960786, 766902859360128349, 4409484190795256868, 287549662955415172],
    [15344529795350044645, 12351950340347787178, 2121169017060323818, 211639675442291648],
    [13460529485480948101, 10682954804020978498, 671211741614168398, 912911633106556733],
    [5136643056123434766, 14877459458623442444, 447056218771717068, 2068061330639540418],
    [6430933921853235703, 539540539545885735, 7941111436218344313, 769895436205805653],
    [12561961204079480435, 9721037577571193180, 1046218008165043116, 3053580927617953757],
    [17474820134823068572, 12646438908332519479, 15823420682553918195, 1486959022689513481],
    [11762160780843632310, 3099151442949383849, 15599554304084958023, 3418527279521339847],
    [4105257958375170940, 1068982041717719629, 237235735441107103, 1625760101378461129],
    [14278110521372508792, 14486288318819432400, 577853531604518559, 1566079910698375545],
    [3799455916125547882, 6142039541244769434, 160948935092095702, 2168177325039081110],
    [7001642502803028474, 12505757059571606002, 11481993017426304531, 134274924120652458],
    [11487031350052609460, 14785928894037948845, 12092717590243266190, 1068144409938687088],
    [18386946053962485123, 4682970976808661161, 6703873057002983811, 3204416265073784271],
    [572593651184983722, 12793949704802471919, 6643025539954621198, 976643676339224678],
    [4224239805701394426, 2615729509385327677, 7692800354967853349, 2519251919290008681],
    [9222391544885532589, 2461833464991382590, 4871944081824757153, 3397609761611993610],
    [17440080968691406058, 11093131537905482847, 9652696650700681180, 790423480782075042],
    [14757199532305230419, 17592137098776003434, 17678336930540491517, 1586833419854804096],
    [6954383663955255946, 4085896374956150091, 15788332036529147027, 3148909999796602526],
    [6315618876068316164, 4911610411821106366, 17797635635931283035, 3047374446678884133],
    [10657542033524628754, 4710918848570019900, 10394602515481530775, 887378777607952238],
    [387761547360685610, 16006588512278281238, 14777581831091818054, 1843999585084561622],
    [15836841857010155534, 15523248350756643382, 12978640204274880740, 3326000966464887051],
    [16561056901728109199, 1372780694000162927, 7285499727474283035, 836237923306886922],
    [14391255772661604616, 2018613999852929061, 2686607010056574918, 321444787357812499],
    [15750829994468942861, 15425351963991868554, 10876053958969780347, 190495694427486659],
    [819679765148425979, 5888592044331467198, 17619006446381783812, 1826731925340470028],
    [4916687214060925458, 13598968843814110383, 14064047962317321472, 1750155369031085740],
    [10432230857728741305, 12666189157361990146, 12040550637508399479, 339419378405114224],
    [13882399467566386632, 1989939336894969021, 2508008360801407241, 1710790855434470581],
    [16462484284344873998, 8697047954127782955, 13279263216896741589, 3284102584634671624],
    [3906730961586875440, 12241701474040075299, 4329769145392451055, 90168544190184691],
    [16827331947174981855, 15601614059011052219, 977086618417261089, 1693790859986413853],
    [15273838811255933493, 16217336208840294450, 5538160307438872684, 2059766334552786235],
    [2894125571820856260, 348921134530964521, 4719914560876692543, 164763175101580807],
    [12266088429193081393, 12182641666224892043, 4085536336523766160, 3089126660176338546],
    [17945624760302224582, 17965695593871628309, 6789006583993524151, 1693481210397907096],
    [9396589410447160191, 11133184214858484822, 1296074035707969511, 2260737056555376765],
    [13979505530509314396, 2339517233275591246, 11648095576359090657, 2982667295295465902],
    [15454825658045629450, 17242494346908839584, 14561160853582917892, 486979519474805848],
    [1681517813199556781, 15858542141882294333, 8269576289281179250, 744383432602814122],
    [14589716020729996089, 10094077727821455250, 4003138875164063605, 2764262465600160044],
    [6666894884691499703, 8611714715881539503, 9158023902439363746, 2447242398652613217],
    [14985322703293524212, 2115906021470076959, 8836349026149931567, 2181495820246039812],
    [17070969748175710943, 4694145547685470196, 2855595700900283290, 2828578951816490579],
    [5648424293340766559, 13476294210319612302, 2739197849134993288, 809089497789044066],
    [866704430815695032, 10820031979098749463, 10368885198813427683, 1935224608718161518],
    [1015644065675076117, 17741009365605448325, 8233075755376404066, 2288513400958581662],
    [7815419351989323719, 10875589984310857364, 7706510546860751539, 1159500668522403395],
    [6615144253774059515, 14797893945138854801, 15838932609390026718, 2581407248638602231],
    [5462865492909616622, 7267753144586054157, 8364632728368759158, 1082016174632801918],
    [1479726114080587152, 2390277289114427736, 5632951261335137099, 2202209685349662169],
    [10698930941888568175, 12370826585057581540, 17051986941271149316, 1753914724503649390],
    [6878086183900389920, 14853291113661387399, 5340091830260811393, 2345104972250104365],
];

/// The shipped additive-constant data of width 16.
pub closed spec fn c16_data() -> Seq<[u64; 4]> {
    C_T16@
}

/// The shipped mixing-matrix data of width 16, row-major.
pub closed spec fn m16_data() -> Seq<[u64; 4]> {
    M_T16@
}

/// The additive round constants of width 16, pinned to the shipped data.
pub fn c_t16() -> (v: Vec<[u64; 4]>)
    ensures
        v@ == c16_data(),
        v@.len() == 1152,
{
    slice_to_vec(C_T16.as_slice())
}

/// The mixing matrix of width 16, pinned to the shipped data.
pub fn m_t16() -> (v: Vec<[u64; 4]>)
    ensures
        v@ == m16_data(),
        v@.len() == 256,
{
    slice_to_vec(M_T16.as_slice())
}

} // verus!
